use vstd::prelude::*;
use vstd::arithmetic::power::pow;
use vstd::utf8::encode_utf8;

verus! {

/// The lowercase hexadecimal digit of a value below sixteen.
pub open spec fn spec_hex_digit(n: int) -> char {
    if n < 10 {
        (('0' as int) + n) as char
    } else {
        (('a' as int) + (n - 10)) as char
    }
}

/// The `i`-th of the 32 hexadecimal digits of `id`, most significant first.
pub open spec fn spec_id_nibble(id: u128, i: int) -> int {
    (id as int / pow(16, (31 - i) as nat)) % 16
}

/// How many hyphens stand before position `j` of the hyphenated form.
pub open spec fn spec_hyphens_before(j: int) -> int {
    if j < 8 {
        0
    } else if j < 13 {
        1
    } else if j < 18 {
        2
    } else if j < 23 {
        3
    } else {
        4
    }
}

/// The hyphenated lowercase text of an identifier, such as
/// `67e55044-10b1-426f-9247-bb680e5fe0c8`: its 32 hexadecimal digits, most
/// significant first, with a hyphen after the 8th, 12th, 16th and 20th.
pub open spec fn spec_id_text(id: u128) -> Seq<char> {
    Seq::new(
        36,
        |j: int|
            if j == 8 || j == 13 || j == 18 || j == 23 {
                '-'
            } else {
                spec_hex_digit(spec_id_nibble(id, j - spec_hyphens_before(j)))
            },
    )
}

/// What `uuid::Uuid::parse_str` reads from a text, as the identifier's
/// 128-bit value: it accepts several textual forms of an identifier.
pub uninterp spec fn spec_parse_id(text: Seq<char>) -> Option<u128>;

/// Reads an identifier with `uuid::Uuid::parse_str` and gives its 128-bit
/// value (`Uuid::as_u128`). Claimed: the result is the one named by
/// `spec_parse_id`; the hyphenated text of any identifier reads back as that
/// identifier; and a text whose UTF-8 length is none of 32, 36, 38 and 45
/// bytes (the simple, hyphenated, braced and URN forms) is refused. The
/// wording of the error message is left unsaid.
#[verifier::external_body]
pub fn parse_id(text: &str) -> (r: Result<u128, String>)
    ensures
        match r {
            Ok(v) => spec_parse_id(text@) == Some(v),
            Err(_) => spec_parse_id(text@) is None,
        },
        r is Ok || !(exists|w: u128| #[trigger] spec_id_text(w) == text@),
        !(encode_utf8(text@).len() == 32 || encode_utf8(text@).len() == 36 || encode_utf8(
            text@,
        ).len() == 38 || encode_utf8(text@).len() == 45) ==> r is Err,
        r matches Ok(v) ==> (forall|w: u128| #[trigger] spec_id_text(w) == text@ ==> w == v),
{
    match uuid::Uuid::parse_str(text) {
        Ok(id) => Ok(id.as_u128()),
        Err(e) => Err(e.to_string()),
    }
}

/// Writes an identifier with `uuid::Uuid::from_u128` and its `Display`
/// implementation. Claimed: the text is the hyphenated lowercase form.
#[verifier::external_body]
pub fn id_text(id: u128) -> (r: String)
    ensures
        r@ == spec_id_text(id),
{
    uuid::Uuid::from_u128(id).to_string()
}

} // verus!
