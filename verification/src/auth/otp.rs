use vstd::prelude::*;
use rand::Rng;
use sha2::{Digest, Sha256};

use crate::ids::spec_hex_digit;
use vstd::utf8::encode_utf8;

verus! {

/// The lowercase hexadecimal text of a byte string, two digits per byte,
/// high half first (what `hex::encode` writes).
pub open spec fn spec_hex_lower(bytes: Seq<u8>) -> Seq<char> {
    Seq::new(
        bytes.len() * 2,
        |i: int|
            if i % 2 == 0 {
                spec_hex_digit(bytes[i / 2] as int / 16)
            } else {
                spec_hex_digit(bytes[i / 2] as int % 16)
            },
    )
}

/// The SHA-256 digest of a byte string, as `sha2::Sha256` computes it.
pub uninterp spec fn spec_sha256(data: Seq<u8>) -> Seq<u8>;

/// Hashes bytes with `sha2::Sha256` (`new`, `update`, `finalize`). Claimed:
/// the digest is the one named by `spec_sha256`, and it is 32 bytes long.
#[verifier::external_body]
fn sha256(data: &[u8]) -> (r: Vec<u8>)
    ensures
        r@ == spec_sha256(data@),
        r@.len() == 32,
{
    let mut hasher = Sha256::new();
    hasher.update(data);
    hasher.finalize().to_vec()
}

/// Writes bytes with `hex::encode`. Claimed: lowercase hexadecimal, two
/// digits per byte, high half first.
#[verifier::external_body]
fn hex_encode(data: &[u8]) -> (r: String)
    ensures
        r@ == spec_hex_lower(data@),
{
    hex::encode(data)
}

/// Draws a number below `bound` with `rand::thread_rng().gen_range(0..bound)`.
/// Claimed: it lies below `bound`. Which number it is, is chance.
#[verifier::external_body]
fn random_below(bound: u32) -> (r: u32)
    requires
        bound > 0,
    ensures
        r < bound,
{
    rand::thread_rng().gen_range(0..bound)
}

/// The decimal digit character of a value below ten.
pub open spec fn spec_digit_char(d: int) -> char {
    (('0' as int) + d) as char
}

/// The value of the `i`-th of six decimal places, most significant first.
pub open spec fn spec_place_value(i: int) -> int {
    if i == 0 {
        100000
    } else if i == 1 {
        10000
    } else if i == 2 {
        1000
    } else if i == 3 {
        100
    } else if i == 4 {
        10
    } else {
        1
    }
}

/// The six-digit, zero-padded decimal text of a number below a million,
/// e.g. 42913 is `042913`.
pub open spec fn spec_code_text(n: int) -> Seq<char> {
    Seq::new(6, |i: int| spec_digit_char((n / spec_place_value(i)) % 10))
}

/// Whether a text is a one-time code: exactly six decimal digits.
pub open spec fn spec_is_code(s: Seq<char>) -> bool {
    exists|n: int| 0 <= n < 1_000_000 && s == #[trigger] spec_code_text(n)
}

/// A one-time code is six characters, each a decimal digit.
pub proof fn law_code_is_six_digits(s: Seq<char>)
    requires
        spec_is_code(s),
    ensures
        s.len() == 6,
        forall|i: int| 0 <= i < 6 ==> '0' <= #[trigger] s[i] <= '9',
{
    let n = choose|n: int| 0 <= n < 1_000_000 && s == #[trigger] spec_code_text(n);
    assert forall|i: int| 0 <= i < 6 implies '0' <= #[trigger] s[i] <= '9' by {
        let d = (n / spec_place_value(i)) % 10;
        assert(0 <= d < 10);
        assert(s[i] == spec_digit_char(d));
    }
}

/// Writes a number below a million as a six-digit, zero-padded code.
pub fn format_code(n: u32) -> (r: String)
    requires
        n < 1_000_000,
    ensures
        r@ == spec_code_text(n as int),
{
    let digits = "0123456789";
    proof {
        reveal_strlit("0123456789");
    }
    assert(digits.is_ascii());
    let mut out = String::new();
    let mut place: u32 = 100000;
    let mut i: usize = 0;
    while i < 6
        invariant
            i <= 6,
            digits@ == seq!['0', '1', '2', '3', '4', '5', '6', '7', '8', '9'],
            digits.is_ascii(),
            i < 6 ==> place as int == spec_place_value(i as int),
            out@.len() == i,
            forall|k: int| 0 <= k < i ==> out@[k] == spec_digit_char((n as int / spec_place_value(k)) % 10),
        decreases 6 - i,
    {
        let d = ((n / place) % 10) as usize;
        let ghost before = out@;
        out.append(digits.substring_ascii(d, d + 1));
        assert(out@ == before.push(spec_digit_char(d as int)));
        place = place / 10;
        i = i + 1;
    }
    assert(out@ =~= spec_code_text(n as int));
    out
}

/// Generates a random six-digit one-time code, e.g. `042913`.
pub fn generate_code() -> (r: String)
    ensures
        spec_is_code(r@),
{
    let n = random_below(1_000_000);
    let r = format_code(n);
    assert(0 <= n < 1_000_000 && r@ == spec_code_text(n as int));
    r
}

/// The stored form of a one-time code: the lowercase hexadecimal SHA-256
/// digest of its UTF-8 bytes.
pub open spec fn spec_hash_code(code: Seq<char>) -> Seq<char> {
    spec_hex_lower(spec_sha256(encode_utf8(code)))
}

/// Hashes a one-time code for storage, so that plaintext codes are never
/// kept with a login challenge.
pub fn hash_code(code: &str) -> (r: String)
    ensures
        r@ == spec_hash_code(code@),
        r@.len() == 64,
{
    let digest = sha256(code.as_bytes());
    hex_encode(digest.as_slice())
}

} // verus!
