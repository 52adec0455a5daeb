//! Comparisons of strings by their UTF-8 bytes.

use vstd::prelude::*;
use vstd::string::*;
use vstd::utf8::*;

verus! {

/// Whether two strings hold the same characters, decided on their bytes.
pub fn str_equal(a: &str, b: &str) -> (r: bool)
    ensures
        r == (a@ == b@),
{
    let x = a.as_bytes();
    let y = b.as_bytes();
    proof {
        encode_utf8_decode_utf8(a@);
        encode_utf8_decode_utf8(b@);
    }
    if x.len() != y.len() {
        return false;
    }
    let n = x.len();
    let mut i: usize = 0;
    while i < n
        invariant
            n == x@.len(),
            n == y@.len(),
            x@ == a.spec_bytes(),
            y@ == b.spec_bytes(),
            0 <= i <= n,
            forall|k: int| 0 <= k < i ==> x@[k] == y@[k],
        decreases n - i,
    {
        if x[i] != y[i] {
            assert(x@[i as int] != y@[i as int]);
            return false;
        }
        i = i + 1;
    }
    assert(x@ =~= y@);
    true
}

/// Lexicographic order on byte strings: `a` comes no later than `b`. A
/// proper prefix comes first.
pub open spec fn bytes_le(a: Seq<u8>, b: Seq<u8>) -> bool
    decreases a.len(),
{
    if a.len() == 0 {
        true
    } else if b.len() == 0 {
        false
    } else if a[0] != b[0] {
        a[0] < b[0]
    } else {
        bytes_le(a.drop_first(), b.drop_first())
    }
}

/// `a` is a prefix of `b`.
pub open spec fn is_prefix_of(a: Seq<u8>, b: Seq<u8>) -> bool {
    a.len() <= b.len() && a == b.subrange(0, a.len() as int)
}

/// `a` and `b` agree on their first `i` bytes and differ at byte `i`, where
/// `a` has the smaller byte.
pub open spec fn first_difference_lower(a: Seq<u8>, b: Seq<u8>, i: int) -> bool {
    &&& 0 <= i < a.len()
    &&& i < b.len()
    &&& a.subrange(0, i) == b.subrange(0, i)
    &&& a[i] < b[i]
}

/// The order of byte strings is plain lexicographic order: `a` comes no
/// later than `b` exactly when `a` is a prefix of `b` or, at the first byte
/// where they differ, `a` has the smaller byte.
pub proof fn bytes_le_is_lexicographic(a: Seq<u8>, b: Seq<u8>)
    ensures
        bytes_le(a, b) <==> (is_prefix_of(a, b) || exists|i: int|
            first_difference_lower(a, b, i)),
    decreases a.len(),
{
    if a.len() == 0 {
        assert(a =~= b.subrange(0, 0));
    } else if b.len() == 0 {
    } else if a[0] != b[0] {
        if a[0] < b[0] {
            assert(a.subrange(0, 0) =~= b.subrange(0, 0));
            assert(first_difference_lower(a, b, 0));
        } else {
            if exists|i: int| first_difference_lower(a, b, i) {
                let i = choose|i: int| first_difference_lower(a, b, i);
                if i > 0 {
                    assert(a.subrange(0, i)[0] == b.subrange(0, i)[0]);
                }
            }
        }
        if is_prefix_of(a, b) {
            assert(b.subrange(0, a.len() as int)[0] == b[0]);
        }
    } else {
        let a1 = a.drop_first();
        let b1 = b.drop_first();
        bytes_le_is_lexicographic(a1, b1);
        if is_prefix_of(a1, b1) {
            assert forall|k: int| 0 <= k < a.len() implies a[k] == b.subrange(
                0,
                a.len() as int,
            )[k] by {
                if k > 0 {
                    assert(a[k] == a1[k - 1]);
                    assert(a1[k - 1] == b1.subrange(0, a1.len() as int)[k - 1]);
                }
            }
            assert(a =~= b.subrange(0, a.len() as int));
        }
        if is_prefix_of(a, b) {
            assert(a1 =~= b1.subrange(0, a1.len() as int));
        }
        if exists|j: int| first_difference_lower(a1, b1, j) {
            let j = choose|j: int| first_difference_lower(a1, b1, j);
            assert(a.subrange(0, j + 1) =~= seq![a[0]] + a1.subrange(0, j));
            assert(b.subrange(0, j + 1) =~= seq![b[0]] + b1.subrange(0, j));
            assert(first_difference_lower(a, b, j + 1));
        }
        if exists|i: int| first_difference_lower(a, b, i) {
            let i = choose|i: int| first_difference_lower(a, b, i);
            assert(i > 0);
            assert(a1.subrange(0, i - 1) =~= a.subrange(0, i).drop_first());
            assert(b1.subrange(0, i - 1) =~= b.subrange(0, i).drop_first());
            assert(first_difference_lower(a1, b1, i - 1));
        }
    }
}

/// `bytes_le` is reflexive.
pub proof fn lemma_bytes_le_reflexive(a: Seq<u8>)
    ensures
        bytes_le(a, a),
    decreases a.len(),
{
    if a.len() > 0 {
        lemma_bytes_le_reflexive(a.drop_first());
    }
}

/// `bytes_le` is total.
pub proof fn lemma_bytes_le_total(a: Seq<u8>, b: Seq<u8>)
    ensures
        bytes_le(a, b) || bytes_le(b, a),
    decreases a.len(),
{
    if a.len() > 0 && b.len() > 0 && a[0] == b[0] {
        lemma_bytes_le_total(a.drop_first(), b.drop_first());
    }
}

/// `bytes_le` is transitive.
pub proof fn lemma_bytes_le_transitive(a: Seq<u8>, b: Seq<u8>, c: Seq<u8>)
    requires
        bytes_le(a, b),
        bytes_le(b, c),
    ensures
        bytes_le(a, c),
    decreases a.len(),
{
    if a.len() > 0 && b.len() > 0 && c.len() > 0 && a[0] == b[0] && b[0] == c[0] {
        lemma_bytes_le_transitive(a.drop_first(), b.drop_first(), c.drop_first());
    }
}

/// Whether byte string `a` comes no later than `b` in lexicographic order.
pub fn bytes_le_exec(a: &[u8], b: &[u8]) -> (r: bool)
    ensures
        r == bytes_le(a@, b@),
{
    let n = a.len();
    let m = b.len();
    let mut i: usize = 0;
    assert(a@.skip(0) =~= a@);
    assert(b@.skip(0) =~= b@);
    while i < n && i < m
        invariant
            n == a@.len(),
            m == b@.len(),
            0 <= i <= n,
            i <= m,
            bytes_le(a@, b@) == bytes_le(a@.skip(i as int), b@.skip(i as int)),
        decreases n - i,
    {
        if a[i] != b[i] {
            return a[i] < b[i];
        }
        assert(a@.skip(i as int).drop_first() =~= a@.skip(i + 1));
        assert(b@.skip(i as int).drop_first() =~= b@.skip(i + 1));
        i = i + 1;
    }
    i == n
}

/// Whether string `a` comes no later than `b` in the order of `str`, which
/// is the lexicographic order of their UTF-8 bytes.
pub fn str_le(a: &str, b: &str) -> (r: bool)
    ensures
        r == bytes_le(encode_utf8(a@), encode_utf8(b@)),
{
    bytes_le_exec(a.as_bytes(), b.as_bytes())
}

} // verus!
