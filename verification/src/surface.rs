//! Registered surfaces: the records that receivers leave in the surface
//! cache, the names of their files, and the order in which they are listed.

use vstd::prelude::*;
use vstd::string::*;
use vstd::utf8::*;

use crate::text::{
    bytes_le,
    bytes_le_is_lexicographic,
    first_difference_lower,
    is_prefix_of,
    lemma_bytes_le_reflexive,
    lemma_bytes_le_total,
    lemma_bytes_le_transitive,
    str_le,
};

verus! {

/// A registered surface, as published on `baton.surface.<sid>`.
#[derive(Debug, Clone, PartialEq, Eq)]
pub struct SurfaceRecord {
    pub session_id: String,
    /// Where the session can be typed into (a window id or a tmux pane),
    /// carried unread.
    pub surface: serde_json::Value,
    pub capabilities: serde_json::Value,
    pub claude_version: String,
    pub registered_unix: u64,
}

/// What `serde_json::Value::get` gives for member `key` of a JSON value:
/// the member where the value is an object that has it, else nothing. It is
/// a function of the value and the key alone.
pub uninterp spec fn json_get(v: serde_json::Value, key: Seq<char>) -> Option<serde_json::Value>;

/// What `serde_json::Value::as_str` gives for a JSON value: its text where it
/// is a string, else nothing. It is a function of the value alone.
pub uninterp spec fn json_str(v: serde_json::Value) -> Option<Seq<char>>;

/// The member `key` of a JSON value, by `serde_json::Value::get`; the
/// result is what `json_get` names for the value and the key.
#[verifier::external_body]
fn json_member<'a>(v: &'a serde_json::Value, key: &str) -> (r: Option<&'a serde_json::Value>)
    ensures
        match r {
            Some(m) => json_get(*v, key@) == Some(*m),
            None => json_get(*v, key@) is None,
        },
{
    v.get(key)
}

/// The text of a JSON string, by `serde_json::Value::as_str`; the result is
/// what `json_str` names for the value.
#[verifier::external_body]
fn json_as_str(v: &serde_json::Value) -> (r: Option<&str>)
    ensures
        match r {
            Some(s) => json_str(*v) == Some(s@),
            None => json_str(*v) is None,
        },
{
    v.as_str()
}

/// The kind that a surface descriptor names: the text of its member `kind`
/// where that member is a string, else `unknown`.
pub open spec fn kind_of_descriptor(surface: serde_json::Value) -> Seq<char> {
    match json_get(surface, "kind"@) {
        Some(m) => match json_str(m) {
            Some(s) => s,
            None => "unknown"@,
        },
        None => "unknown"@,
    }
}

/// The kind of a surface, given the text of its `kind` member where it has
/// one that is a string: that text, else `unknown`.
pub fn kind_or_unknown(found: Option<&str>) -> (kind: String)
    ensures
        kind@ == match found {
            Some(s) => s@,
            None => "unknown"@,
        },
{
    match found {
        Some(s) => s.to_owned(),
        None => "unknown".to_owned(),
    }
}

/// The kind of a registered surface (such as `x11` or `tmux`): the string
/// member `kind` of its surface descriptor, or `unknown`.
pub fn surface_kind(record: &SurfaceRecord) -> (kind: String)
    ensures
        kind@ == kind_of_descriptor(record.surface),
{
    let found = match json_member(&record.surface, "kind") {
        Some(v) => json_as_str(v),
        None => None,
    };
    kind_or_unknown(found)
}

/// The UTF-8 bytes of `.json`.
pub open spec fn json_suffix() -> Seq<u8> {
    seq![46u8, 106u8, 115u8, 111u8, 110u8]
}

/// Whether a file name, taken by its bytes, has the extension `json`: the
/// part after its last `.` is `json`, and the name does not consist of a `.`
/// and the extension alone. This is when `Path::extension` gives `json`.
pub open spec fn has_json_extension(name: Seq<u8>) -> bool {
    &&& name.len() > json_suffix().len()
    &&& name.subrange(name.len() - json_suffix().len(), name.len() as int) == json_suffix()
}

/// Whether the cache file of this name holds a surface record: whether its
/// extension is `json`.
pub fn is_json_file_name(name: &str) -> (r: bool)
    ensures
        r == has_json_extension(encode_utf8(name@)),
{
    let b = name.as_bytes();
    let n = b.len();
    if n <= 5 {
        return false;
    }
    let r = b[n - 5] == 46u8 && b[n - 4] == 106u8 && b[n - 3] == 115u8 && b[n - 2] == 111u8 && b[n
        - 1] == 110u8;
    proof {
        let tail = b@.subrange(n - 5, n as int);
        if r {
            assert(tail =~= json_suffix());
        } else {
            if tail == json_suffix() {
                assert(tail[0] == 46u8 && tail[1] == 106u8 && tail[2] == 115u8 && tail[3] == 111u8
                    && tail[4] == 110u8);
            }
        }
    }
    r
}

/// The name of the cache file that holds the record of a session: the
/// session id and `.json`.
pub fn surface_file_name(sid: &str) -> (name: String)
    ensures
        name@ == sid@ + ".json"@,
{
    let mut name = sid.to_owned();
    name.append(".json");
    name
}

/// The encoding of two strings one after the other is the encoding of the
/// first followed by that of the second.
pub proof fn lemma_encode_utf8_concat(a: Seq<char>, b: Seq<char>)
    ensures
        encode_utf8(a + b) == encode_utf8(a) + encode_utf8(b),
    decreases a.len(),
{
    if a.len() == 0 {
        assert(a + b =~= b);
        assert(encode_utf8(a) + encode_utf8(b) =~= encode_utf8(b));
    } else {
        lemma_encode_utf8_concat(a.drop_first(), b);
        assert((a + b).drop_first() =~= a.drop_first() + b);
        assert(encode_utf8(a + b) =~= encode_scalar(a[0] as u32) + encode_utf8(a.drop_first() + b));
    }
}

/// A string encodes to at least as many bytes as it has characters.
pub proof fn lemma_encode_utf8_len(a: Seq<char>)
    ensures
        encode_utf8(a).len() >= a.len(),
    decreases a.len(),
{
    if a.len() > 0 {
        lemma_encode_utf8_len(a.drop_first());
    }
}

/// The file named for a session is taken up by a scan of the cache exactly
/// when the session id is not empty.
pub proof fn surface_file_is_listed(sid: Seq<char>)
    ensures
        has_json_extension(encode_utf8(sid + ".json"@)) <==> sid.len() > 0,
{
    reveal_strlit(".json");
    let dot_json = ".json"@;
    assert(is_ascii_chars(dot_json));
    is_ascii_chars_encode_utf8(dot_json);
    assert(encode_utf8(dot_json) =~= json_suffix());
    lemma_encode_utf8_concat(sid, dot_json);
    lemma_encode_utf8_len(sid);
    let e = encode_utf8(sid);
    let whole = encode_utf8(sid + dot_json);
    assert(whole.subrange(whole.len() - 5, whole.len() as int) =~= json_suffix());
    if sid.len() == 0 {
        assert(sid =~= Seq::<char>::empty());
        assert(e.len() == 0);
    }
}

/// The key by which records are ordered: the UTF-8 bytes of the session id.
pub open spec fn record_key(r: SurfaceRecord) -> Seq<u8> {
    encode_utf8(r.session_id@)
}

/// `output` is `input` sorted by session id, stably, and `perm` says where
/// each record of `output` stood in `input`: every record comes from its own
/// place of `input`, the session ids ascend, and records with the same
/// session id keep their order.
pub open spec fn is_stable_sort_of(
    input: Seq<SurfaceRecord>,
    output: Seq<SurfaceRecord>,
    perm: Seq<int>,
) -> bool {
    &&& output.len() == input.len()
    &&& perm.len() == input.len()
    &&& forall|k: int|
        0 <= k < output.len() ==> 0 <= #[trigger] perm[k] < input.len() && output[k]
            == input[perm[k]]
    &&& forall|a: int, b: int| 0 <= a < b < output.len() ==> perm[a] != perm[b]
    &&& forall|a: int, b: int|
        0 <= a < b < output.len() ==> bytes_le(
            record_key(#[trigger] output[a]),
            record_key(#[trigger] output[b]),
        )
    &&& forall|a: int, b: int|
        0 <= a < b < output.len() && record_key(output[a]) == record_key(output[b]) ==> perm[a]
            < perm[b]
}

/// In a sorted listing, each session id comes before a later one in plain
/// lexicographic byte order: it is a prefix of the later one, or at their
/// first differing byte it has the smaller byte.
pub proof fn sorted_records_are_lexicographic(
    input: Seq<SurfaceRecord>,
    output: Seq<SurfaceRecord>,
    perm: Seq<int>,
    a: int,
    b: int,
)
    requires
        is_stable_sort_of(input, output, perm),
        0 <= a < b < output.len(),
    ensures
        is_prefix_of(record_key(output[a]), record_key(output[b])) || exists|i: int|
            first_difference_lower(record_key(output[a]), record_key(output[b]), i),
{
    bytes_le_is_lexicographic(record_key(output[a]), record_key(output[b]));
}

/// Sorts records by session id, in the order of `str`, keeping the order of
/// records that share a session id.
pub fn sort_surface_records(records: Vec<SurfaceRecord>) -> (sorted: Vec<SurfaceRecord>)
    ensures
        exists|perm: Seq<int>| is_stable_sort_of(records@, sorted@, perm),
{
    let ghost input = records@;
    let n = records.len();
    let mut rest = records;
    let mut out: Vec<SurfaceRecord> = Vec::new();
    let ghost mut perm: Seq<int> = Seq::empty();
    let mut i: usize = 0;
    while i < n
        invariant
            n == input.len(),
            0 <= i <= n,
            rest@ == input.subrange(i as int, n as int),
            out@.len() == i,
            perm.len() == i,
            forall|k: int| 0 <= k < i ==> 0 <= #[trigger] perm[k] < i && out@[k] == input[perm[k]],
            forall|a: int, b: int| 0 <= a < b < i ==> perm[a] != perm[b],
            forall|a: int, b: int|
                0 <= a < b < i ==> bytes_le(
                    record_key(#[trigger] out@[a]),
                    record_key(#[trigger] out@[b]),
                ),
            forall|a: int, b: int|
                0 <= a < b < i && record_key(out@[a]) == record_key(out@[b]) ==> perm[a]
                    < perm[b],
        decreases n - i,
    {
        let rec = rest.remove(0);
        assert(rec == input[i as int]);
        let ghost x = record_key(rec);
        // Find the first place whose record comes strictly after `rec`.
        let mut pos: usize = 0;
        while pos < out.len() && str_le(out[pos].session_id.as_str(), rec.session_id.as_str())
            invariant
                out@.len() == i,
                0 <= pos <= i,
                x == record_key(rec),
                forall|k: int| 0 <= k < pos ==> bytes_le(#[trigger] record_key(out@[k]), x),
            decreases i - pos,
        {
            pos = pos + 1;
        }
        proof {
            // Every record from `pos` on comes strictly after `rec`.
            assert forall|k: int| pos <= k < i implies !bytes_le(
                #[trigger] record_key(out@[k]),
                x,
            ) by {
                assert(!bytes_le(record_key(out@[pos as int]), x));
                if k > pos && bytes_le(record_key(out@[k]), x) {
                    lemma_bytes_le_transitive(
                        record_key(out@[pos as int]),
                        record_key(out@[k]),
                        x,
                    );
                }
            }
        }
        let ghost old_out = out@;
        let ghost old_perm = perm;
        out.insert(pos, rec);
        proof {
            perm = old_perm.insert(pos as int, i as int);
            assert forall|k: int| 0 <= k < i + 1 implies 0 <= #[trigger] perm[k] < i + 1
                && out@[k] == input[perm[k]] by {
                if k < pos {
                    assert(out@[k] == old_out[k]);
                } else if k > pos {
                    assert(out@[k] == old_out[k - 1]);
                }
            }
            assert forall|a: int, b: int| 0 <= a < b < i + 1 implies perm[a] != perm[b] by {
                if a < pos && b > pos {
                    assert(perm[b] == old_perm[b - 1]);
                } else if a > pos {
                    assert(perm[a] == old_perm[a - 1]);
                    assert(perm[b] == old_perm[b - 1]);
                }
            }
            assert forall|a: int, b: int| 0 <= a < b < i + 1 implies bytes_le(
                record_key(#[trigger] out@[a]),
                record_key(#[trigger] out@[b]),
            ) by {
                if b == pos {
                    assert(out@[a] == old_out[a]);
                } else if a == pos {
                    assert(out@[b] == old_out[b - 1]);
                    lemma_bytes_le_total(x, record_key(old_out[b - 1]));
                } else if b < pos {
                    assert(out@[a] == old_out[a]);
                    assert(out@[b] == old_out[b]);
                } else if a < pos {
                    assert(out@[a] == old_out[a]);
                    assert(out@[b] == old_out[b - 1]);
                } else {
                    assert(out@[a] == old_out[a - 1]);
                    assert(out@[b] == old_out[b - 1]);
                }
            }
            assert forall|a: int, b: int|
                0 <= a < b < i + 1 && record_key(out@[a]) == record_key(out@[b]) implies perm[a]
                < perm[b] by {
                if b == pos {
                    assert(perm[a] == old_perm[a]);
                } else if a == pos {
                    assert(out@[b] == old_out[b - 1]);
                    lemma_bytes_le_reflexive(x);
                } else if b < pos {
                    assert(perm[a] == old_perm[a]);
                    assert(perm[b] == old_perm[b]);
                } else if a < pos {
                    assert(perm[a] == old_perm[a]);
                    assert(perm[b] == old_perm[b - 1]);
                    assert(out@[a] == old_out[a]);
                    assert(out@[b] == old_out[b - 1]);
                } else {
                    assert(perm[a] == old_perm[a - 1]);
                    assert(perm[b] == old_perm[b - 1]);
                    assert(out@[a] == old_out[a - 1]);
                    assert(out@[b] == old_out[b - 1]);
                }
            }
            assert(rest@ =~= input.subrange(i + 1, n as int));
        }
        i = i + 1;
    }
    assert(is_stable_sort_of(input, out@, perm));
    out
}

} // verus!
