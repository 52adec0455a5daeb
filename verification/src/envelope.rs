//! The RPC envelopes that a sender publishes to a receiver.

use vstd::prelude::*;

verus! {

/// The parameters of a request, one variant per method.
#[derive(Debug, Clone, PartialEq, Eq)]
pub enum Params {
    /// `baton.send`: type a prompt into the target, and submit it if asked.
    Send {
        prompt: String,
        target_session_id: String,
        dry_run: bool,
        submit: bool,
        settle_ms: u32,
    },
    /// `baton.key`: press a key chord in the target, `repeat` times.
    Key { chord: String, target_session_id: String, repeat: u32 },
    /// `baton.spawn`: start a headless session on a prompt, in `cwd` if given.
    Spawn { prompt: String, cwd: Option<String> },
}

/// The parameters of a request, with every string taken by its characters.
pub enum ParamsModel {
    Send {
        prompt: Seq<char>,
        target_session_id: Seq<char>,
        dry_run: bool,
        submit: bool,
        settle_ms: u32,
    },
    Key { chord: Seq<char>, target_session_id: Seq<char>, repeat: u32 },
    Spawn { prompt: Seq<char>, cwd: Option<Seq<char>> },
}

impl View for Params {
    type V = ParamsModel;

    open spec fn view(&self) -> ParamsModel {
        match self {
            Params::Send { prompt, target_session_id, dry_run, submit, settle_ms } => {
                ParamsModel::Send {
                    prompt: prompt@,
                    target_session_id: target_session_id@,
                    dry_run: *dry_run,
                    submit: *submit,
                    settle_ms: *settle_ms,
                }
            },
            Params::Key { chord, target_session_id, repeat } => ParamsModel::Key {
                chord: chord@,
                target_session_id: target_session_id@,
                repeat: *repeat,
            },
            Params::Spawn { prompt, cwd } => ParamsModel::Spawn {
                prompt: prompt@,
                cwd: match cwd {
                    Some(c) => Some(c@),
                    None => None,
                },
            },
        }
    }
}

/// The value of one member of a request's parameters on the wire.
#[derive(Debug, Clone, PartialEq, Eq)]
pub enum ParamValue {
    Text(String),
    Flag(bool),
    Count(u32),
}

/// A parameter value with its text taken by its characters.
pub enum ParamValueModel {
    Text(Seq<char>),
    Flag(bool),
    Count(u32),
}

impl View for ParamValue {
    type V = ParamValueModel;

    open spec fn view(&self) -> ParamValueModel {
        match self {
            ParamValue::Text(t) => ParamValueModel::Text(t@),
            ParamValue::Flag(b) => ParamValueModel::Flag(*b),
            ParamValue::Count(n) => ParamValueModel::Count(*n),
        }
    }
}

/// The members of a request's parameters object, by name, as the
/// AGORABUS RPC envelope (v0.1) lays them out for each method. A spawn
/// request has a `cwd` member only when a working directory was given.
pub open spec fn param_members(params: ParamsModel) -> Seq<(Seq<char>, ParamValueModel)> {
    match params {
        ParamsModel::Send { prompt, target_session_id, dry_run, submit, settle_ms } => seq![
            ("prompt"@, ParamValueModel::Text(prompt)),
            ("target_session_id"@, ParamValueModel::Text(target_session_id)),
            ("dry_run"@, ParamValueModel::Flag(dry_run)),
            ("submit"@, ParamValueModel::Flag(submit)),
            ("settle_ms"@, ParamValueModel::Count(settle_ms)),
        ],
        ParamsModel::Key { chord, target_session_id, repeat } => seq![
            ("chord"@, ParamValueModel::Text(chord)),
            ("target_session_id"@, ParamValueModel::Text(target_session_id)),
            ("repeat"@, ParamValueModel::Count(repeat)),
        ],
        ParamsModel::Spawn { prompt, cwd } => match cwd {
            Some(c) => seq![
                ("prompt"@, ParamValueModel::Text(prompt)),
                ("cwd"@, ParamValueModel::Text(c)),
            ],
            None => seq![("prompt"@, ParamValueModel::Text(prompt))],
        },
    }
}

/// One member of a parameters object, taken by its view.
pub open spec fn member_view(m: (String, ParamValue)) -> (Seq<char>, ParamValueModel) {
    (m.0@, m.1@)
}

/// The members of the parameters object of a request, in the order listed
/// for its method.
pub fn param_members_of(params: &Params) -> (members: Vec<(String, ParamValue)>)
    ensures
        members@.map_values(|m: (String, ParamValue)| member_view(m)) == param_members(params@),
{
    let mut members: Vec<(String, ParamValue)> = Vec::new();
    match params {
        Params::Send { prompt, target_session_id, dry_run, submit, settle_ms } => {
            members.push(("prompt".to_owned(), ParamValue::Text(prompt.clone())));
            members.push(
                ("target_session_id".to_owned(), ParamValue::Text(target_session_id.clone())),
            );
            members.push(("dry_run".to_owned(), ParamValue::Flag(*dry_run)));
            members.push(("submit".to_owned(), ParamValue::Flag(*submit)));
            members.push(("settle_ms".to_owned(), ParamValue::Count(*settle_ms)));
        },
        Params::Key { chord, target_session_id, repeat } => {
            members.push(("chord".to_owned(), ParamValue::Text(chord.clone())));
            members.push(
                ("target_session_id".to_owned(), ParamValue::Text(target_session_id.clone())),
            );
            members.push(("repeat".to_owned(), ParamValue::Count(*repeat)));
        },
        Params::Spawn { prompt, cwd } => {
            members.push(("prompt".to_owned(), ParamValue::Text(prompt.clone())));
            match cwd {
                Some(c) => members.push(("cwd".to_owned(), ParamValue::Text(c.clone()))),
                None => {},
            }
        },
    }
    assert(members@.map_values(|m: (String, ParamValue)| member_view(m)) =~= param_members(
        params@,
    ));
    members
}

/// An RPC request envelope.
#[derive(Debug, Clone, PartialEq, Eq)]
pub struct Envelope {
    pub id: String,
    /// The sender's session id.
    pub from: String,
    /// The target's session id.
    pub to: String,
    /// The method the receiver is asked to run.
    pub method: String,
    pub params: Params,
    /// The unix time, in seconds, after which the sender stops waiting.
    pub deadline_unix: u64,
}

/// An envelope with every string taken by its characters.
pub struct EnvelopeModel {
    pub id: Seq<char>,
    pub from: Seq<char>,
    pub to: Seq<char>,
    pub method: Seq<char>,
    pub params: ParamsModel,
    pub deadline_unix: u64,
}

impl View for Envelope {
    type V = EnvelopeModel;

    open spec fn view(&self) -> EnvelopeModel {
        EnvelopeModel {
            id: self.id@,
            from: self.from@,
            to: self.to@,
            method: self.method@,
            params: self.params@,
            deadline_unix: self.deadline_unix,
        }
    }
}

/// The method name of a send request.
pub open spec fn send_method() -> Seq<char> {
    "baton.send"@
}

/// The method name of a key request.
pub open spec fn key_method() -> Seq<char> {
    "baton.key"@
}

/// The method name of a spawn request.
pub open spec fn spawn_method() -> Seq<char> {
    "baton.spawn"@
}

/// The envelope of a send request.
pub open spec fn send_envelope(
    from: Seq<char>,
    to: Seq<char>,
    prompt: Seq<char>,
    id: Seq<char>,
    deadline_unix: u64,
    dry_run: bool,
    submit: bool,
    settle_ms: u32,
) -> EnvelopeModel {
    EnvelopeModel {
        id,
        from,
        to,
        method: send_method(),
        params: ParamsModel::Send { prompt, target_session_id: to, dry_run, submit, settle_ms },
        deadline_unix,
    }
}

/// The envelope of a key request.
pub open spec fn key_envelope(
    from: Seq<char>,
    to: Seq<char>,
    chord: Seq<char>,
    repeat: u32,
    id: Seq<char>,
    deadline_unix: u64,
) -> EnvelopeModel {
    EnvelopeModel {
        id,
        from,
        to,
        method: key_method(),
        params: ParamsModel::Key { chord, target_session_id: to, repeat },
        deadline_unix,
    }
}

/// The envelope of a spawn request.
pub open spec fn spawn_envelope(
    from: Seq<char>,
    to: Seq<char>,
    prompt: Seq<char>,
    cwd: Option<Seq<char>>,
    id: Seq<char>,
    deadline_unix: u64,
) -> EnvelopeModel {
    EnvelopeModel {
        id,
        from,
        to,
        method: spawn_method(),
        params: ParamsModel::Spawn { prompt, cwd },
        deadline_unix,
    }
}

/// A send request, dry run or not, comes from its sender, is addressed to
/// its target, names that target in its parameters, and carries the prompt,
/// flags, id and deadline it was given, under the method `baton.send`.
pub proof fn send_envelope_fields(
    from: Seq<char>,
    to: Seq<char>,
    prompt: Seq<char>,
    id: Seq<char>,
    deadline_unix: u64,
    dry_run: bool,
    submit: bool,
    settle_ms: u32,
)
    ensures
        ({
            let env = send_envelope(from, to, prompt, id, deadline_unix, dry_run, submit, settle_ms);
            &&& env.from == from
            &&& env.to == to
            &&& env.id == id
            &&& env.deadline_unix == deadline_unix
            &&& env.method == "baton.send"@
            &&& env.params matches ParamsModel::Send {
                prompt: p,
                target_session_id: t,
                dry_run: d,
                submit: s,
                settle_ms: m,
            } && p == prompt && t == to && d == dry_run && s == submit && m == settle_ms
        }),
{
}

/// A key request comes from its sender, is addressed to its target, names
/// that target in its parameters, and carries the chord, repeat count, id
/// and deadline it was given, under the method `baton.key`.
pub proof fn key_envelope_fields(
    from: Seq<char>,
    to: Seq<char>,
    chord: Seq<char>,
    repeat: u32,
    id: Seq<char>,
    deadline_unix: u64,
)
    ensures
        ({
            let env = key_envelope(from, to, chord, repeat, id, deadline_unix);
            &&& env.from == from
            &&& env.to == to
            &&& env.id == id
            &&& env.deadline_unix == deadline_unix
            &&& env.method == "baton.key"@
            &&& env.params matches ParamsModel::Key { chord: c, target_session_id: t, repeat: r }
                && c == chord && t == to && r == repeat
        }),
{
}

/// A spawn request comes from its sender, is addressed to its target, and
/// carries the prompt, the working directory exactly when one was given, the
/// id and the deadline, under the method `baton.spawn`.
pub proof fn spawn_envelope_fields(
    from: Seq<char>,
    to: Seq<char>,
    prompt: Seq<char>,
    cwd: Option<Seq<char>>,
    id: Seq<char>,
    deadline_unix: u64,
)
    ensures
        ({
            let env = spawn_envelope(from, to, prompt, cwd, id, deadline_unix);
            &&& env.from == from
            &&& env.to == to
            &&& env.id == id
            &&& env.deadline_unix == deadline_unix
            &&& env.method == "baton.spawn"@
            &&& env.params matches ParamsModel::Spawn { prompt: p, cwd: c } && p == prompt && c
                == cwd
        }),
{
}

/// A dry run is a send request to the same target as a real one: only the
/// flags and the settle time differ.
pub proof fn dry_run_goes_to_the_target(
    from: Seq<char>,
    to: Seq<char>,
    prompt: Seq<char>,
    id: Seq<char>,
    deadline_unix: u64,
    submit: bool,
    settle_ms: u32,
)
    ensures
        send_envelope(from, to, prompt, id, deadline_unix, true, false, crate::DEFAULT_SETTLE_MS).to
            == send_envelope(from, to, prompt, id, deadline_unix, false, submit, settle_ms).to,
        send_envelope(from, to, prompt, id, deadline_unix, true, false, crate::DEFAULT_SETTLE_MS).to
            == to,
{
}

/// A send or key request names its target twice, in the envelope and in the
/// parameters, and the two agree.
pub proof fn requests_name_their_target(
    from: Seq<char>,
    to: Seq<char>,
    text: Seq<char>,
    id: Seq<char>,
    deadline_unix: u64,
    dry_run: bool,
    submit: bool,
    settle_ms: u32,
    repeat: u32,
)
    ensures
        send_envelope(from, to, text, id, deadline_unix, dry_run, submit, settle_ms).params
            matches ParamsModel::Send { target_session_id, .. } && target_session_id == to,
        key_envelope(from, to, text, repeat, id, deadline_unix).params matches ParamsModel::Key {
            target_session_id,
            ..
        } && target_session_id == to,
{
}

/// The three methods have distinct names, so a receiver can tell the
/// requests apart by the method alone.
pub proof fn methods_are_distinct()
    ensures
        send_method() != key_method(),
        send_method() != spawn_method(),
        key_method() != spawn_method(),
{
    reveal_strlit("baton.send");
    reveal_strlit("baton.key");
    reveal_strlit("baton.spawn");
    assert(send_method().len() == 10);
    assert(key_method().len() == 9);
    assert(spawn_method().len() == 11);
}

/// Builds the envelope of a dry run: a send request that types nothing and
/// submits nothing, with the default settle time.
pub fn build_dry_envelope(
    from: &str,
    to: &str,
    prompt: &str,
    id: String,
    deadline_unix: u64,
) -> (env: Envelope)
    ensures
        env@ == send_envelope(from@, to@, prompt@, id@, deadline_unix, true, false, crate::DEFAULT_SETTLE_MS),
{
    build_send_envelope(from, to, prompt, id, deadline_unix, true, false, crate::DEFAULT_SETTLE_MS)
}

/// The target of a spawn request: the one named, else the sender itself.
pub fn spawn_target(target: Option<String>, self_sid: &str) -> (t: String)
    ensures
        t@ == match target {
            Some(s) => s@,
            None => self_sid@,
        },
{
    match target {
        Some(s) => s,
        None => self_sid.to_owned(),
    }
}

/// Builds the envelope that asks the target to type `prompt`.
pub fn build_send_envelope(
    from: &str,
    to: &str,
    prompt: &str,
    id: String,
    deadline_unix: u64,
    dry_run: bool,
    submit: bool,
    settle_ms: u32,
) -> (env: Envelope)
    ensures
        env@ == send_envelope(from@, to@, prompt@, id@, deadline_unix, dry_run, submit, settle_ms),
{
    let params = Params::Send {
        prompt: prompt.to_owned(),
        target_session_id: to.to_owned(),
        dry_run,
        submit,
        settle_ms,
    };
    Envelope {
        id,
        from: from.to_owned(),
        to: to.to_owned(),
        method: "baton.send".to_owned(),
        params,
        deadline_unix,
    }
}

/// Builds the envelope that asks the target to press `chord`, `repeat` times.
pub fn build_key_envelope(
    from: &str,
    to: &str,
    chord: &str,
    repeat: u32,
    id: String,
    deadline_unix: u64,
) -> (env: Envelope)
    ensures
        env@ == key_envelope(from@, to@, chord@, repeat, id@, deadline_unix),
{
    let params = Params::Key { chord: chord.to_owned(), target_session_id: to.to_owned(), repeat };
    Envelope {
        id,
        from: from.to_owned(),
        to: to.to_owned(),
        method: "baton.key".to_owned(),
        params,
        deadline_unix,
    }
}

/// Builds the envelope that asks for a headless session on `prompt`; the
/// working directory goes into the parameters only when one is given.
pub fn build_spawn_envelope(
    from: &str,
    to: &str,
    prompt: &str,
    cwd: Option<&str>,
    id: String,
    deadline_unix: u64,
) -> (env: Envelope)
    ensures
        env@ == spawn_envelope(
            from@,
            to@,
            prompt@,
            match cwd {
                Some(c) => Some(c@),
                None => None,
            },
            id@,
            deadline_unix,
        ),
{
    let cwd_owned = match cwd {
        Some(c) => Some(c.to_owned()),
        None => None,
    };
    let params = Params::Spawn { prompt: prompt.to_owned(), cwd: cwd_owned };
    Envelope {
        id,
        from: from.to_owned(),
        to: to.to_owned(),
        method: "baton.spawn".to_owned(),
        params,
        deadline_unix,
    }
}

} // verus!
