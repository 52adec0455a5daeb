use baton::clock::{
    clock_reading, deadline_after, now_unix, now_unix_nanos, seconds_left, unix_nanos_of,
    unix_secs_of,
};
use baton::envelope::{
    build_dry_envelope, build_key_envelope, build_send_envelope, build_spawn_envelope,
    param_members_of, spawn_target, ParamValue, Params,
};
use baton::make_id;
use baton::reply::{
    classify_reply, outcome_exit_code, reply_answers, request_outcome, ReplyEnvelope, ReplyOutcome,
};
use baton::report::{failure_message, peer_line, push_decimal};
use baton::scan::forbidden_terms;
use baton::surface::{
    is_json_file_name, kind_or_unknown, sort_surface_records, surface_file_name, surface_kind,
    SurfaceRecord,
};
use baton::text::{bytes_le_exec, str_equal, str_le};
use baton::topic::{reply_listener_sid, reply_topic, request_topic, self_session_id};
use baton::{DEFAULT_DEADLINE_SECS, DEFAULT_SETTLE_MS};

#[test]
fn id_shape_matches_pattern() {
    let id = make_id(42);
    assert!(id.starts_with("rpc-baton-"), "got: {id}");
    assert_eq!(id.len(), "rpc-baton-".len() + 10);
    assert!(
        id.chars()
            .skip("rpc-baton-".len())
            .all(|c| c.is_ascii_alphanumeric())
    );
}

#[test]
fn id_digits_are_base36_least_significant_first() {
    assert_eq!(make_id(0), "rpc-baton-0000000000");
    assert_eq!(make_id(42), "rpc-baton-6100000000");
    assert_eq!(make_id(35), "rpc-baton-z000000000");
    assert_eq!(make_id(36), "rpc-baton-0100000000");
    assert_eq!(make_id(36u128.pow(10) - 1), "rpc-baton-zzzzzzzzzz");
}

#[test]
fn ids_repeat_only_modulo_36_pow_10() {
    let m = 36u128.pow(10);
    assert_eq!(make_id(7), make_id(7 + m));
    assert_ne!(make_id(7), make_id(8));
    assert_ne!(make_id(0), make_id(m - 1));
}

#[test]
fn ids_of_extreme_seeds_have_the_shape() {
    let id = make_id(u128::MAX);
    assert_eq!(id.len(), 20);
    assert!(id["rpc-baton-".len()..]
        .chars()
        .all(|c| c.is_ascii_digit() || c.is_ascii_lowercase()));
}

#[test]
fn exit_codes_follow_the_table() {
    assert_eq!(outcome_exit_code(ReplyOutcome::Success), 0);
    assert_eq!(outcome_exit_code(ReplyOutcome::Unreachable), 2);
    assert_eq!(outcome_exit_code(ReplyOutcome::Cooldown), 3);
    assert_eq!(outcome_exit_code(ReplyOutcome::NotFound), 4);
    assert_eq!(outcome_exit_code(ReplyOutcome::Timeout), 5);
    assert_eq!(outcome_exit_code(ReplyOutcome::NotOwner), 6);
    assert_eq!(outcome_exit_code(ReplyOutcome::Replay), 7);
    assert_eq!(outcome_exit_code(ReplyOutcome::UnknownMethod), 8);
    assert_eq!(outcome_exit_code(ReplyOutcome::OtherError), 9);
}

#[test]
fn exit_codes_are_distinct_on_concrete_outcomes() {
    let all = [
        ReplyOutcome::Success,
        ReplyOutcome::Unreachable,
        ReplyOutcome::Cooldown,
        ReplyOutcome::NotOwner,
        ReplyOutcome::Replay,
        ReplyOutcome::UnknownMethod,
        ReplyOutcome::Timeout,
        ReplyOutcome::NotFound,
        ReplyOutcome::OtherError,
    ];
    for (i, a) in all.iter().enumerate() {
        for (j, b) in all.iter().enumerate() {
            assert_eq!(outcome_exit_code(*a) == outcome_exit_code(*b), i == j);
        }
    }
}

fn reply(id: &str, ok: bool, error: Option<&str>) -> ReplyEnvelope {
    ReplyEnvelope {
        id: id.to_string(),
        from: "peer".to_string(),
        ok,
        error: error.map(|e| e.to_string()),
        detail: None,
        result: None,
    }
}

#[test]
fn replies_classify_by_error_name() {
    assert_eq!(classify_reply(&reply("x", false, Some("unreachable"))), ReplyOutcome::Unreachable);
    assert_eq!(classify_reply(&reply("x", false, Some("cooldown"))), ReplyOutcome::Cooldown);
    assert_eq!(classify_reply(&reply("x", false, Some("not_owner"))), ReplyOutcome::NotOwner);
    assert_eq!(classify_reply(&reply("x", false, Some("replay"))), ReplyOutcome::Replay);
    assert_eq!(
        classify_reply(&reply("x", false, Some("unknown_method"))),
        ReplyOutcome::UnknownMethod
    );
    assert_eq!(classify_reply(&reply("x", false, Some("not_found"))), ReplyOutcome::NotFound);
    assert_eq!(classify_reply(&reply("x", false, Some("timeout"))), ReplyOutcome::OtherError);
    assert_eq!(classify_reply(&reply("x", false, Some("Cooldown"))), ReplyOutcome::OtherError);
    assert_eq!(classify_reply(&reply("x", false, None)), ReplyOutcome::OtherError);
}

#[test]
fn ok_replies_succeed_whatever_their_error() {
    assert_eq!(classify_reply(&reply("x", true, None)), ReplyOutcome::Success);
    assert_eq!(classify_reply(&reply("x", true, Some("cooldown"))), ReplyOutcome::Success);
}

#[test]
fn missing_reply_is_a_timeout() {
    assert_eq!(request_outcome(None), ReplyOutcome::Timeout);
    assert_eq!(outcome_exit_code(request_outcome(None)), 5);
    let r = reply("x", false, Some("replay"));
    assert_eq!(request_outcome(Some(&r)), ReplyOutcome::Replay);
    assert_eq!(outcome_exit_code(request_outcome(Some(&r))), 7);
}

#[test]
fn replies_match_by_request_id() {
    let r = reply("rpc-baton-abc", true, None);
    assert!(reply_answers(&r, "rpc-baton-abc"));
    assert!(!reply_answers(&r, "rpc-baton-abd"));
    assert!(!reply_answers(&r, "rpc-baton-ab"));
}

#[test]
fn send_envelope_carries_its_arguments() {
    let env = build_send_envelope("me", "you", "hello", "rpc-baton-1".to_string(), 99, false, true, 750);
    assert_eq!(env.id, "rpc-baton-1");
    assert_eq!(env.from, "me");
    assert_eq!(env.to, "you");
    assert_eq!(env.method, "baton.send");
    assert_eq!(env.deadline_unix, 99);
    assert_eq!(
        env.params,
        Params::Send {
            prompt: "hello".to_string(),
            target_session_id: "you".to_string(),
            dry_run: false,
            submit: true,
            settle_ms: 750,
        }
    );
}

#[test]
fn key_envelope_carries_its_arguments() {
    let env = build_key_envelope("me", "you", "C-c", 3, "id".to_string(), 7);
    assert_eq!(env.method, "baton.key");
    assert_eq!(env.to, "you");
    assert_eq!(
        env.params,
        Params::Key { chord: "C-c".to_string(), target_session_id: "you".to_string(), repeat: 3 }
    );
}

#[test]
fn spawn_envelope_has_cwd_only_when_given() {
    let with = build_spawn_envelope("me", "t", "p", Some("/tmp"), "id".to_string(), 1);
    assert_eq!(with.method, "baton.spawn");
    assert_eq!(with.params, Params::Spawn { prompt: "p".to_string(), cwd: Some("/tmp".to_string()) });
    let without = build_spawn_envelope("me", "t", "p", None, "id".to_string(), 1);
    assert_eq!(without.params, Params::Spawn { prompt: "p".to_string(), cwd: None });
}

fn record(sid: &str, registered: u64) -> SurfaceRecord {
    SurfaceRecord {
        session_id: sid.to_string(),
        surface: serde_json::Value::Null,
        capabilities: serde_json::Value::Null,
        claude_version: String::new(),
        registered_unix: registered,
    }
}

#[test]
fn records_sort_by_session_id_stably() {
    let input = vec![
        record("b", 1),
        record("a", 2),
        record("B", 3),
        record("a", 4),
        record("ab", 5),
        record("", 6),
    ];
    let sorted = sort_surface_records(input);
    let got: Vec<(String, u64)> =
        sorted.iter().map(|r| (r.session_id.clone(), r.registered_unix)).collect();
    let want: Vec<(String, u64)> = vec![
        ("".to_string(), 6),
        ("B".to_string(), 3),
        ("a".to_string(), 2),
        ("a".to_string(), 4),
        ("ab".to_string(), 5),
        ("b".to_string(), 1),
    ];
    assert_eq!(got, want);
}

#[test]
fn empty_record_list_sorts_to_empty() {
    assert!(sort_surface_records(Vec::new()).is_empty());
}

#[test]
fn json_file_names_are_recognised_like_path_extension() {
    assert!(is_json_file_name("s1.json"));
    assert!(is_json_file_name("..json"));
    assert!(is_json_file_name("a.b.json"));
    assert!(!is_json_file_name(".json"));
    assert!(!is_json_file_name("json"));
    assert!(!is_json_file_name("s1.JSON"));
    assert!(!is_json_file_name("s1.json.bak"));
    assert!(!is_json_file_name("s1.jsonx"));
    for name in ["s1.json", "..json", ".json", "x.JSON", "a.json.tmp", "é.json"] {
        let by_path = std::path::Path::new(name).extension().and_then(|e| e.to_str()) == Some("json");
        assert_eq!(is_json_file_name(name), by_path, "{name}");
    }
}

#[test]
fn surface_file_name_appends_json() {
    assert_eq!(surface_file_name("abc"), "abc.json");
    assert_eq!(surface_file_name(""), ".json");
    assert!(is_json_file_name(&surface_file_name("abc")));
    assert!(!is_json_file_name(&surface_file_name("")));
}

#[test]
fn surface_kind_reads_the_kind_member() {
    let mut r = record("s", 1);
    r.surface = serde_json::from_str(r#"{"kind":"tmux","pane":"%3"}"#).unwrap();
    assert_eq!(surface_kind(&r), "tmux");
    r.surface = serde_json::from_str(r#"{"pane":"%3"}"#).unwrap();
    assert_eq!(surface_kind(&r), "unknown");
    r.surface = serde_json::from_str(r#"{"kind":3}"#).unwrap();
    assert_eq!(surface_kind(&r), "unknown");
    r.surface = serde_json::Value::Null;
    assert_eq!(surface_kind(&r), "unknown");
    assert_eq!(kind_or_unknown(Some("x11")), "x11");
    assert_eq!(kind_or_unknown(None), "unknown");
}

#[test]
fn peer_lines_list_id_kind_and_time() {
    let r = record("s1", 1700000000);
    assert_eq!(peer_line(&r, "tmux"), "s1  tmux  registered=1700000000");
    let r = record("s2", 0);
    assert_eq!(peer_line(&r, "unknown"), "s2  unknown  registered=0");
}

#[test]
fn decimals_are_written_without_leading_zeros() {
    for n in [0u64, 7, 10, 99, 100, 12345, u64::MAX] {
        let mut s = String::from("n=");
        push_decimal(&mut s, n);
        assert_eq!(s, format!("n={n}"));
    }
}

#[test]
fn failure_messages_default_their_parts() {
    assert_eq!(
        failure_message(&Some("cooldown".to_string()), &Some("wait 3s".to_string())),
        "baton: cooldown wait 3s"
    );
    assert_eq!(failure_message(&None, &None), "baton: error ");
    assert_eq!(failure_message(&Some("replay".to_string()), &None), "baton: replay ");
}

#[test]
fn topics_name_the_sessions() {
    assert_eq!(request_topic("abc"), "rpc.req.abc");
    assert_eq!(reply_topic("me"), "rpc.reply.me");
    assert_eq!(reply_listener_sid("me", 1234), "me-baton-reply-1234");
    assert_eq!(reply_listener_sid("me", 0), "me-baton-reply-0");
}

#[test]
fn forbidden_terms_are_the_three() {
    assert_eq!(forbidden_terms(), &["TIOCSTI", "/dev/pts/", "setterm"]);
}

#[test]
fn deadlines_and_time_left() {
    assert_eq!(deadline_after(100, DEFAULT_DEADLINE_SECS), 130);
    assert_eq!(seconds_left(130, 100), Some(30));
    assert_eq!(seconds_left(130, 130), None);
    assert_eq!(seconds_left(130, 200), None);
    assert_eq!(DEFAULT_SETTLE_MS, 750);
}

#[test]
fn clock_reads_after_the_epoch() {
    let secs = now_unix();
    let nanos = now_unix_nanos();
    assert!(secs > 1_600_000_000);
    let nano_secs = u64::try_from(nanos / 1_000_000_000).unwrap();
    assert!(nano_secs + 5 >= secs && nano_secs <= secs + 5);
}

#[test]
fn strings_compare_by_bytes() {
    assert!(str_equal("abc", "abc"));
    assert!(!str_equal("abc", "abd"));
    assert!(!str_equal("ab", "abc"));
    assert!(str_equal("", ""));
    assert!(str_le("B", "a"));
    assert!(!str_le("a", "B"));
    assert!(str_le("ab", "abc"));
    assert!(!str_le("abc", "ab"));
    assert!(str_le("é", "é"));
    assert!(str_le("z", "é"));
    assert!(bytes_le_exec(&[1, 2], &[1, 3]));
    assert!(!bytes_le_exec(&[2], &[1, 9]));
}

#[test]
fn param_members_follow_the_wire_shape() {
    let send = build_send_envelope("me", "you", "hi", "id".to_string(), 1, true, false, 250);
    assert_eq!(
        param_members_of(&send.params),
        vec![
            ("prompt".to_string(), ParamValue::Text("hi".to_string())),
            ("target_session_id".to_string(), ParamValue::Text("you".to_string())),
            ("dry_run".to_string(), ParamValue::Flag(true)),
            ("submit".to_string(), ParamValue::Flag(false)),
            ("settle_ms".to_string(), ParamValue::Count(250)),
        ]
    );
    let key = build_key_envelope("me", "you", "C-c", 2, "id".to_string(), 1);
    assert_eq!(
        param_members_of(&key.params),
        vec![
            ("chord".to_string(), ParamValue::Text("C-c".to_string())),
            ("target_session_id".to_string(), ParamValue::Text("you".to_string())),
            ("repeat".to_string(), ParamValue::Count(2)),
        ]
    );
    let spawn = build_spawn_envelope("me", "t", "p", Some("/w"), "id".to_string(), 1);
    assert_eq!(
        param_members_of(&spawn.params),
        vec![
            ("prompt".to_string(), ParamValue::Text("p".to_string())),
            ("cwd".to_string(), ParamValue::Text("/w".to_string())),
        ]
    );
    let spawn = build_spawn_envelope("me", "t", "p", None, "id".to_string(), 1);
    assert_eq!(
        param_members_of(&spawn.params),
        vec![("prompt".to_string(), ParamValue::Text("p".to_string()))]
    );
}

#[test]
fn dry_runs_type_nothing() {
    let env = build_dry_envelope("me", "you", "hi", "id".to_string(), 9);
    assert_eq!(env.method, "baton.send");
    assert_eq!(
        env.params,
        Params::Send {
            prompt: "hi".to_string(),
            target_session_id: "you".to_string(),
            dry_run: true,
            submit: false,
            settle_ms: DEFAULT_SETTLE_MS,
        }
    );
}

#[test]
fn spawn_targets_default_to_the_sender() {
    assert_eq!(spawn_target(Some("other".to_string()), "me"), "other");
    assert_eq!(spawn_target(None, "me"), "me");
}

#[test]
fn records_and_replies_clone_to_equal_values() {
    let mut r = record("s", 3);
    r.surface = serde_json::from_str(r#"{"kind":"x11","window":"0x1"}"#).unwrap();
    let c = r.clone();
    assert_eq!(c, r);
    assert_eq!(surface_kind(&c), "x11");
    let rep = reply("id", false, Some("replay"));
    let rc = rep.clone();
    assert_eq!(classify_reply(&rc), ReplyOutcome::Replay);
    assert_eq!(rc.id, "id");
}

#[test]
fn surface_kind_ignores_other_members() {
    let mut r = record("s", 3);
    r.surface = serde_json::from_str(r#"{"name":"tmux"}"#).unwrap();
    r.capabilities = serde_json::from_str(r#"{"kind":"x11"}"#).unwrap();
    assert_eq!(surface_kind(&r), "unknown");
}

#[test]
fn clock_readings_map_to_seconds_and_nanoseconds() {
    assert_eq!(unix_secs_of(Some((1_700_000_000, 250_000_000))), 1_700_000_000);
    assert_eq!(unix_nanos_of(Some((1_700_000_000, 250_000_000))), 1_700_000_000_250_000_000);
    assert_eq!(unix_secs_of(None), 0);
    assert_eq!(unix_nanos_of(None), 0);
    let r = Some((u64::MAX, 999_999_999));
    assert_eq!(unix_nanos_of(r) / 1_000_000_000, u128::from(unix_secs_of(r)));
    let reading = clock_reading();
    if let Some((_, n)) = reading {
        assert!(n < 1_000_000_000);
    }
    assert_eq!(unix_nanos_of(reading) / 1_000_000_000, u128::from(unix_secs_of(reading)));
}

#[test]
fn self_session_id_prefers_flag_then_environment() {
    assert_eq!(self_session_id(Some("f".to_string()), Some("e".to_string()), 7), "f");
    assert_eq!(self_session_id(None, Some("e".to_string()), 7), "e");
    assert_eq!(self_session_id(None, None, 4321), "baton-cli-4321");
}
