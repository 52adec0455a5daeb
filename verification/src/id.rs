//! Request ids: `rpc-baton-` followed by ten base-36 digits of a seed.

use vstd::prelude::*;

verus! {

/// `String::push` appends one character to the end of the string.
pub assume_specification[ String::push ](s: &mut String, ch: char)
    ensures
        final(s)@ == old(s)@.push(ch),
;

/// The character of a base-36 digit: `0`-`9`, then `a`-`z`.
pub open spec fn base36_digit(d: int) -> char {
    if d < 10 {
        (48 + d) as char
    } else {
        (87 + d) as char
    }
}

/// Whether a character is an ASCII digit or lower-case ASCII letter.
pub open spec fn is_base36_char(c: char) -> bool {
    ('0' <= c && c <= '9') || ('a' <= c && c <= 'z')
}

/// The lowest `n` base-36 digits of `s`, least significant first.
pub open spec fn base36_digits(s: nat, n: nat) -> Seq<char>
    decreases n,
{
    if n == 0 {
        Seq::empty()
    } else {
        seq![base36_digit((s % 36) as int)] + base36_digits(s / 36, (n - 1) as nat)
    }
}

/// The prefix of every request id.
pub open spec fn id_prefix() -> Seq<char> {
    "rpc-baton-"@
}

/// The id made from a seed.
pub open spec fn id_of_seed(seed: nat) -> Seq<char> {
    id_prefix() + base36_digits(seed, 10)
}

/// The character of one digit below 36.
fn digit_char(d: u8) -> (c: char)
    requires
        d < 36,
    ensures
        c == base36_digit(d as int),
        is_base36_char(c),
{
    if d < 10 {
        (48u8 + d) as char
    } else {
        (87u8 + d) as char
    }
}

/// Makes a request id: `rpc-baton-` and then the ten lowest base-36 digits of
/// `seed`, least significant first.
pub fn make_id(seed: u128) -> (id: String)
    ensures
        id@ == id_of_seed(seed as nat),
        id@.len() == 20,
        id@.subrange(0, 10) == id_prefix(),
        forall|k: int| 10 <= k < 20 ==> is_base36_char(#[trigger] id@[k]),
{
    let mut out = "rpc-baton-".to_owned();
    let mut s: u128 = seed;
    let mut i: usize = 0;
    proof {
        reveal_strlit("rpc-baton-");
    }
    while i < 10
        invariant
            i <= 10,
            id_prefix().len() == 10,
            out@ + base36_digits(s as nat, (10 - i) as nat) == id_of_seed(seed as nat),
            out@.len() == 10 + i,
        decreases 10 - i,
    {
        let d: u8 = (s % 36) as u8;
        let c = digit_char(d);
        let ghost before = out@;
        out.push(c);
        proof {
            assert(base36_digits(s as nat, (10 - i) as nat) == seq![c] + base36_digits(
                (s / 36) as nat,
                (10 - i - 1) as nat,
            ));
            assert(out@ + base36_digits((s / 36) as nat, (10 - i - 1) as nat) =~= before
                + base36_digits(s as nat, (10 - i) as nat));
        }
        s = s / 36;
        i = i + 1;
    }
    proof {
        assert(base36_digits(s as nat, 0) =~= Seq::<char>::empty());
        assert(out@ =~= id_of_seed(seed as nat));
        lemma_digits_are_base36(seed as nat, 10);
        assert(out@.subrange(0, 10) =~= id_prefix());
        assert forall|k: int| 10 <= k < 20 implies is_base36_char(#[trigger] out@[k]) by {
            assert(out@[k] == base36_digits(seed as nat, 10)[k - 10]);
        }
    }
    out
}

/// `base36_digits(s, n)` has `n` characters, each a digit or lower-case letter.
pub proof fn lemma_digits_are_base36(s: nat, n: nat)
    ensures
        base36_digits(s, n).len() == n,
        forall|k: int| 0 <= k < n ==> is_base36_char(#[trigger] base36_digits(s, n)[k]),
    decreases n,
{
    if n > 0 {
        lemma_digits_are_base36(s / 36, (n - 1) as nat);
        let d = (s % 36) as int;
        assert(is_base36_char(base36_digit(d))) by {
            if d < 10 {
                assert(((48 + d) as char) as int == 48 + d);
            } else {
                assert(((87 + d) as char) as int == 87 + d);
            }
        }
        let rest = base36_digits(s / 36, (n - 1) as nat);
        assert forall|k: int| 0 <= k < n implies is_base36_char(#[trigger] base36_digits(s, n)[k]) by {
            if k > 0 {
                assert(base36_digits(s, n)[k] == rest[k - 1]);
            }
        }
    }
}

/// 36 to the power `n`.
pub open spec fn pow36(n: nat) -> nat
    decreases n,
{
    if n == 0 {
        1
    } else {
        36 * pow36((n - 1) as nat)
    }
}

proof fn lemma_pow36_positive(n: nat)
    ensures
        pow36(n) > 0,
    decreases n,
{
    if n > 0 {
        lemma_pow36_positive((n - 1) as nat);
    }
}

proof fn lemma_digit_injective(d: int, e: int)
    requires
        0 <= d < 36,
        0 <= e < 36,
        base36_digit(d) == base36_digit(e),
    ensures
        d == e,
{
    let cd = base36_digit(d);
    let ce = base36_digit(e);
    assert(cd as int == if d < 10 { 48 + d } else { 87 + d });
    assert(ce as int == if e < 10 { 48 + e } else { 87 + e });
}

proof fn lemma_digits_agree(a: nat, b: nat, n: nat)
    ensures
        base36_digits(a, n) == base36_digits(b, n) <==> a % pow36(n) == b % pow36(n),
    decreases n,
{
    if n == 0 {
        assert(base36_digits(a, 0) =~= base36_digits(b, 0));
    } else {
        let m = (n - 1) as nat;
        let p = pow36(m);
        lemma_pow36_positive(m);
        lemma_digits_agree(a / 36, b / 36, m);
        vstd::arithmetic::div_mod::lemma_mod_breakdown(a as int, 36, p as int);
        vstd::arithmetic::div_mod::lemma_mod_breakdown(b as int, 36, p as int);
        let da = base36_digits(a, n);
        let db = base36_digits(b, n);
        let ra = base36_digits(a / 36, m);
        let rb = base36_digits(b / 36, m);
        lemma_digits_are_base36(a / 36, m);
        lemma_digits_are_base36(b / 36, m);
        if da == db {
            assert(da[0] == db[0]);
            lemma_digit_injective((a % 36) as int, (b % 36) as int);
            assert(ra =~= da.subrange(1, n as int));
            assert(rb =~= db.subrange(1, n as int));
        }
        if a % pow36(n) == b % pow36(n) {
            assert(a % 36 == b % 36 && (a / 36) % p == (b / 36) % p);
            assert(da =~= db);
        }
    }
}

/// Two seeds make the same id exactly when they agree modulo 36^10: an id
/// tells apart every two seeds that differ by less than 36^10.
pub proof fn ids_agree_iff_seeds_agree(a: nat, b: nat)
    ensures
        id_of_seed(a) == id_of_seed(b) <==> a % pow36(10) == b % pow36(10),
{
    reveal_strlit("rpc-baton-");
    assert(id_prefix().len() == 10);
    lemma_digits_agree(a, b, 10);
    lemma_digits_are_base36(a, 10);
    lemma_digits_are_base36(b, 10);
    if id_of_seed(a) == id_of_seed(b) {
        assert(base36_digits(a, 10) =~= id_of_seed(a).subrange(10, 20));
        assert(base36_digits(b, 10) =~= id_of_seed(b).subrange(10, 20));
    }
}

} // verus!
