//! The password verifier: a one-way transform from a plaintext to a
//! stored digest string, and the verify operation that decides a login.
//!
//! The scheme itself is deliberately simple — a bounded polynomial
//! accumulator rendered as sixteen hex digits — since the rest of the
//! service only relies on the relation between `hash_password` and
//! `verify_password`, never on the shape of the digest.

use vstd::prelude::*;

verus! {

/// The modulus that keeps the accumulator bounded.
pub const DIGEST_MODULUS: u64 = 1_000_000_007;

/// The accumulator over the characters of the plaintext, always in
/// `[0, DIGEST_MODULUS)`.
pub open spec fn spec_digest(s: Seq<char>) -> int
    decreases s.len(),
{
    if s.len() == 0 {
        5381
    } else {
        (spec_digest(s.drop_last()) * 31 + s.last() as int) % (DIGEST_MODULUS as int)
    }
}

/// The hex digit for a value in `[0, 16)`.
pub open spec fn spec_hex_char(v: int) -> char {
    if v == 0 {
        '0'
    } else if v == 1 {
        '1'
    } else if v == 2 {
        '2'
    } else if v == 3 {
        '3'
    } else if v == 4 {
        '4'
    } else if v == 5 {
        '5'
    } else if v == 6 {
        '6'
    } else if v == 7 {
        '7'
    } else if v == 8 {
        '8'
    } else if v == 9 {
        '9'
    } else if v == 10 {
        'a'
    } else if v == 11 {
        'b'
    } else if v == 12 {
        'c'
    } else if v == 13 {
        'd'
    } else if v == 14 {
        'e'
    } else {
        'f'
    }
}

/// The last `n` hex digits of `v`, most significant first.
pub open spec fn spec_hex(v: int, n: nat) -> Seq<char>
    decreases n,
{
    if n == 0 {
        Seq::empty()
    } else {
        spec_hex(v / 16, (n - 1) as nat).push(spec_hex_char(v % 16))
    }
}

/// The digest string stored for a password.
pub open spec fn spec_password_hash(p: Seq<char>) -> Seq<char> {
    spec_hex(spec_digest(p), 16)
}

/// True exactly when `digest` is the digest of `plaintext`.
pub open spec fn spec_verify(plaintext: Seq<char>, digest: Seq<char>) -> bool {
    digest == spec_password_hash(plaintext)
}

fn digest(s: &str) -> (h: u64)
    ensures
        h as int == spec_digest(s@),
{
    let len = s.unicode_len();
    let mut h: u64 = 5381;
    assert(s@.take(0) =~= Seq::<char>::empty());
    for i in 0..len
        invariant
            len == s@.len(),
            h as int == spec_digest(s@.take(i as int)),
            h < DIGEST_MODULUS,
    {
        let c = s.get_char(i);
        proof {
            assert(s@.take(i + 1).drop_last() =~= s@.take(i as int));
            assert(s@.take(i + 1).last() == s@[i as int]);
        }
        h = (h * 31 + (c as u64)) % DIGEST_MODULUS;
    }
    proof {
        assert(s@.take(len as int) =~= s@);
    }
    h
}

fn hex_render(v: u64, n: u8) -> (s: String)
    ensures
        s@ == spec_hex(v as int, n as nat),
    decreases n,
{
    if n == 0 {
        let s = String::new();
        assert(s@ =~= spec_hex(v as int, 0));
        s
    } else {
        let mut s = hex_render(v / 16, n - 1);
        let d = v % 16;
        let digit: &str = if d == 0 {
            "0"
        } else if d == 1 {
            "1"
        } else if d == 2 {
            "2"
        } else if d == 3 {
            "3"
        } else if d == 4 {
            "4"
        } else if d == 5 {
            "5"
        } else if d == 6 {
            "6"
        } else if d == 7 {
            "7"
        } else if d == 8 {
            "8"
        } else if d == 9 {
            "9"
        } else if d == 10 {
            "a"
        } else if d == 11 {
            "b"
        } else if d == 12 {
            "c"
        } else if d == 13 {
            "d"
        } else if d == 14 {
            "e"
        } else {
            "f"
        };
        proof {
            reveal_strlit("0");
            reveal_strlit("1");
            reveal_strlit("2");
            reveal_strlit("3");
            reveal_strlit("4");
            reveal_strlit("5");
            reveal_strlit("6");
            reveal_strlit("7");
            reveal_strlit("8");
            reveal_strlit("9");
            reveal_strlit("a");
            reveal_strlit("b");
            reveal_strlit("c");
            reveal_strlit("d");
            reveal_strlit("e");
            reveal_strlit("f");
            assert(digit@ =~= seq![spec_hex_char(v as int % 16)]);
        }
        s.append(digit);
        assert(s@ =~= spec_hex(v as int / 16, (n - 1) as nat).push(spec_hex_char(v as int % 16)));
        s
    }
}

/// The one-way transform applied to an account password at creation.
pub fn hash_password(password: &str) -> (h: String)
    ensures
        h@ == spec_password_hash(password@),
{
    let d = digest(password);
    hex_render(d, 16)
}

/// Decides whether `digest` was produced from `plaintext`. A malformed
/// digest is never an error: it simply verifies as false.
pub fn verify_password(plaintext: &str, digest: &str) -> (ok: bool)
    ensures
        ok == spec_verify(plaintext@, digest@),
{
    let expected = hash_password(plaintext);
    let given = digest.to_owned();
    expected == given
}

/// The round trip that the verifier owes its callers: a digest freshly
/// produced from a plaintext verifies against that plaintext.
pub proof fn lemma_hash_verify_round_trip(plaintext: Seq<char>)
    ensures
        spec_verify(plaintext, spec_password_hash(plaintext)),
{
}

} // verus!
