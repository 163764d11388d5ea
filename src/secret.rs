use vstd::prelude::*;
use vstd::string::*;

verus! {

/// Length of the random seed that a session token is derived from.
pub const TOKEN_SEED_LEN: usize = 32;

/// Length of a freshly generated password salt.
pub const SALT_LEN: usize = 16;

/// Number of bytes in a SHA3-256 digest.
pub const DIGEST_LEN: usize = 32;

/// The SHA3-256 digest of the UTF-8 encoding of a character sequence.
pub uninterp spec fn sha3_256_of(s: Seq<char>) -> Seq<u8>;

/// The lowercase hexadecimal digits.
pub open spec fn hex_digits() -> Seq<char> {
    seq!['0', '1', '2', '3', '4', '5', '6', '7', '8', '9', 'a', 'b', 'c', 'd', 'e', 'f']
}

/// The hexadecimal digit of a value below sixteen.
pub open spec fn hex_char(n: u8) -> char
    recommends
        n < 16,
{
    hex_digits()[n as int]
}

/// Lowercase hexadecimal text of a byte sequence: two digits per byte, high
/// nibble first.
pub open spec fn hex_of(b: Seq<u8>) -> Seq<char>
    decreases b.len(),
{
    if b.len() == 0 {
        Seq::empty()
    } else {
        let last = b.last();
        hex_of(b.drop_last()) + seq![hex_char(last / 16), hex_char(last % 16)]
    }
}

/// The session token / digest text of a string: hex of its SHA3-256 digest.
pub open spec fn sha3_hex_of(s: Seq<char>) -> Seq<char> {
    hex_of(sha3_256_of(s))
}

/// The stored digest of a password under a salt: the digest text of the
/// password followed by the salt.
pub open spec fn salted_digest(password: Seq<char>, salt: Seq<char>) -> Seq<char> {
    sha3_hex_of(password + salt)
}

/// ASCII letters and digits.
pub open spec fn is_alphanumeric(c: char) -> bool {
    ('0' <= c && c <= '9') || ('a' <= c && c <= 'z') || ('A' <= c && c <= 'Z')
}

pub proof fn lemma_hex_len(b: Seq<u8>)
    ensures
        hex_of(b).len() == 2 * b.len(),
    decreases b.len(),
{
    if b.len() > 0 {
        lemma_hex_len(b.drop_last());
    }
}

/// Relies on `sha3::Sha3_256::digest` (through `digest::Digest`): the 32-byte
/// SHA3-256 digest of the string's UTF-8 bytes, which depends on the string alone.
#[verifier::external_body]
fn sha3_256_digest(s: &str) -> (r: Vec<u8>)
    ensures
        r@ == sha3_256_of(s@),
        r@.len() == DIGEST_LEN,
{
    <sha3::Sha3_256 as sha3::Digest>::digest(s.as_bytes()).to_vec()
}

/// Relies on `rand::distr::Alphanumeric` sampled through
/// `rand::distr::SampleString::sample_string` with the thread-local
/// cryptographically secure generator `rand::rng()`: `len` characters, each an
/// ASCII letter or digit. Nothing else is known of the outcome.
#[verifier::external_body]
fn random_alphanumeric(len: usize) -> (r: String)
    ensures
        r@.len() == len,
        forall|i: int| 0 <= i < r@.len() ==> is_alphanumeric(#[trigger] r@[i]),
{
    rand::distr::SampleString::sample_string(&rand::distr::Alphanumeric, &mut rand::rng(), len)
}

/// The text of one hexadecimal digit.
fn hex_digit_str(n: u8) -> (r: &'static str)
    requires
        n < 16,
    ensures
        r@ == seq![hex_char(n)],
{
    proof {
        assert(hex_digits().len() == 16);
    }
        if n == 0 {
            proof { reveal_strlit("0"); }
            "0"
        } else if n == 1 {
            proof { reveal_strlit("1"); }
            "1"
        } else if n == 2 {
            proof { reveal_strlit("2"); }
            "2"
        } else if n == 3 {
            proof { reveal_strlit("3"); }
            "3"
        } else if n == 4 {
            proof { reveal_strlit("4"); }
            "4"
        } else if n == 5 {
            proof { reveal_strlit("5"); }
            "5"
        } else if n == 6 {
            proof { reveal_strlit("6"); }
            "6"
        } else if n == 7 {
            proof { reveal_strlit("7"); }
            "7"
        } else if n == 8 {
            proof { reveal_strlit("8"); }
            "8"
        } else if n == 9 {
            proof { reveal_strlit("9"); }
            "9"
        } else if n == 10 {
            proof { reveal_strlit("a"); }
            "a"
        } else if n == 11 {
            proof { reveal_strlit("b"); }
            "b"
        } else if n == 12 {
            proof { reveal_strlit("c"); }
            "c"
        } else if n == 13 {
            proof { reveal_strlit("d"); }
            "d"
        } else if n == 14 {
            proof { reveal_strlit("e"); }
            "e"
        } else {
            proof { reveal_strlit("f"); }
            "f"
        }
}

/// Lowercase hexadecimal encoding of bytes.
pub fn hex_encode(bytes: &Vec<u8>) -> (r: String)
    ensures
        r@ == hex_of(bytes@),
{
    let mut out = String::new();
    let mut i: usize = 0;
    while i < bytes.len()
        invariant
            i <= bytes@.len(),
            out@ == hex_of(bytes@.subrange(0, i as int)),
        decreases bytes@.len() - i,
    {
        let b = bytes[i];
        let hi = hex_digit_str(b / 16);
        let lo = hex_digit_str(b % 16);
        out.append(hi);
        out.append(lo);
        proof {
            let next = bytes@.subrange(0, i + 1);
            assert(next.drop_last() =~= bytes@.subrange(0, i as int));
            assert(next.last() == b);
        }
        i = i + 1;
    }
    proof {
        assert(bytes@.subrange(0, bytes@.len() as int) =~= bytes@);
    }
    out
}

/// Hexadecimal SHA3-256 digest of a string.
pub fn sha3_256_encode(s: &str) -> (r: String)
    ensures
        r@ == sha3_hex_of(s@),
        r@.len() == 2 * DIGEST_LEN,
{
    let digest = sha3_256_digest(s);
    proof {
        lemma_hex_len(digest@);
    }
    hex_encode(&digest)
}

/// The stored digest of `password` under `salt`.
pub fn make_pwd_encode(password: &str, salt: &str) -> (r: String)
    ensures
        r@ == salted_digest(password@, salt@),
        r@.len() == 2 * DIGEST_LEN,
{
    let mut joined = password.to_owned();
    joined.append(salt);
    sha3_256_encode(joined.as_str())
}

/// A fresh random salt of `SALT_LEN` letters and digits.
pub fn new_salt() -> (r: String)
    ensures
        r@.len() == SALT_LEN,
        forall|i: int| 0 <= i < r@.len() ==> is_alphanumeric(#[trigger] r@[i]),
{
    random_alphanumeric(SALT_LEN)
}

/// A fresh session token: the digest text of a random seed. The seed is
/// returned as well, so that callers can relate the token to it.
pub fn new_session_token() -> (r: (String, String))
    ensures
        r.1@.len() == TOKEN_SEED_LEN,
        r.0@ == sha3_hex_of(r.1@),
        r.0@.len() == 2 * DIGEST_LEN,
{
    let seed = random_alphanumeric(TOKEN_SEED_LEN);
    let token = sha3_256_encode(seed.as_str());
    (token, seed)
}

/// Equality of two strings whose running time does not depend on where they
/// first differ: every character pair is inspected.
pub fn constant_time_eq(a: &str, b: &str) -> (r: bool)
    ensures
        r == (a@ == b@),
{
    let n = a.unicode_len();
    if n != b.unicode_len() {
        return false;
    }
    let mut diff: u32 = 0;
    let mut i: usize = 0;
    while i < n
        invariant
            n == a@.len(),
            n == b@.len(),
            i <= n,
            (diff == 0) == (forall|j: int| 0 <= j < i ==> a@[j] == b@[j]),
        decreases n - i,
    {
        let x = a.get_char(i) as u32;
        let y = b.get_char(i) as u32;
        let d = x ^ y;
        proof {
            assert((x ^ y == 0) == (x == y)) by (bit_vector);
            assert(((diff | d) == 0) == (diff == 0 && d == 0)) by (bit_vector);
        }
        diff = diff | d;
        i = i + 1;
    }
    proof {
        if diff == 0 {
            assert(a@ =~= b@);
        }
    }
    diff == 0
}

} // verus!
