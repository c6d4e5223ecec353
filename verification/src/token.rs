//! Tokens: the 32 uppercase hexadecimal digits of a random 128-bit identifier.

use uuid::Uuid;
use vstd::prelude::*;

verus! {

/// The sixteen hexadecimal digits in lower case, by value.
pub open spec fn lower_hex_digits() -> Seq<char> {
    seq!['0', '1', '2', '3', '4', '5', '6', '7', '8', '9', 'a', 'b', 'c', 'd', 'e', 'f']
}

/// The sixteen hexadecimal digits in upper case, by value.
pub open spec fn upper_hex_digits() -> Seq<char> {
    seq!['0', '1', '2', '3', '4', '5', '6', '7', '8', '9', 'A', 'B', 'C', 'D', 'E', 'F']
}

/// Sixteen to the power `k`.
pub open spec fn pow16(k: nat) -> nat
    decreases k,
{
    if k == 0 {
        1
    } else {
        16 * pow16((k - 1) as nat)
    }
}

/// The value of the hexadecimal digit of `bits` at position `i`, counted from the
/// most significant digit, which is at position 0, to position 31.
pub open spec fn nibble(bits: u128, i: int) -> int {
    (bits as int / pow16((31 - i) as nat) as int) % 16
}

/// The 32 lower-case hexadecimal digits of `bits`, most significant first.
pub open spec fn lower_hex(bits: u128) -> Seq<char> {
    Seq::new(32, |i: int| lower_hex_digits()[nibble(bits, i)])
}

/// The 32 upper-case hexadecimal digits of `bits`, most significant first.
pub open spec fn upper_hex(bits: u128) -> Seq<char> {
    Seq::new(32, |i: int| upper_hex_digits()[nibble(bits, i)])
}

/// An upper-case hexadecimal digit: `0` to `9` or `A` to `F`.
pub open spec fn is_upper_hex_char(c: char) -> bool {
    ('0' <= c && c <= '9') || ('A' <= c && c <= 'F')
}

/// A token is 32 upper-case hexadecimal digits and nothing else.
pub open spec fn is_token(s: Seq<char>) -> bool {
    &&& s.len() == 32
    &&& forall|i: int| 0 <= i < 32 ==> is_upper_hex_char(#[trigger] s[i])
}

/// The marks that every random (version 4) identifier carries: its digit at
/// position 12 is 4, and its digit at position 16 is 8, 9, A or B.
pub open spec fn is_random_version(bits: u128) -> bool {
    &&& nibble(bits, 12) == 4
    &&& 8 <= nibble(bits, 16) <= 11
}

/// A token that came from a random (version 4) identifier: it shows the digit 4
/// at position 12 and one of 8, 9, A, B at position 16.
pub open spec fn is_random_token(s: Seq<char>) -> bool {
    &&& is_token(s)
    &&& s[12] == '4'
    &&& (s[16] == '8' || s[16] == '9' || s[16] == 'A' || s[16] == 'B')
}

/// The upper-case counterpart of an ASCII letter; any other character is itself.
pub open spec fn ascii_upper(c: char) -> char {
    if 'a' <= c && c <= 'z' {
        ((c as u8 - 32) as u8) as char
    } else {
        c
    }
}

/// Calls `uuid::Uuid::new_v4` and hands out the identifier as a number
/// (`Uuid::as_u128`). The value is random; what is claimed holds of every one:
/// `new_v4` sets the version digit to 4 and the two variant bits to `10`.
#[verifier::external_body]
pub(crate) fn random_bits() -> (bits: u128)
    ensures
        is_random_version(bits),
{
    Uuid::new_v4().as_u128()
}

/// Formats `bits` through `uuid`'s `Simple` adapter (`Uuid::from_u128`, then
/// `Uuid::simple` and its `Display`): 32 lower-case hexadecimal digits, most
/// significant first, without separators.
#[verifier::external_body]
fn simple_hex(bits: u128) -> (s: String)
    ensures
        s@ == lower_hex(bits),
{
    Uuid::from_u128(bits).simple().to_string()
}

/// Calls `str::to_uppercase`. Claimed for ASCII text only: each lower-case letter
/// becomes its upper-case counterpart and every other character stays.
#[verifier::external_body]
fn to_uppercase(s: &str) -> (r: String)
    ensures
        vstd::utf8::is_ascii_chars(s@) ==> r@ == s@.map_values(|c: char| ascii_upper(c)),
{
    s.to_uppercase()
}

/// Every digit value lies below sixteen.
pub proof fn lemma_nibble_range(bits: u128, i: int)
    ensures
        0 <= nibble(bits, i) < 16,
{
}

/// The upper-case digits of a number make a token.
pub proof fn lemma_upper_hex_is_token(bits: u128)
    ensures
        is_token(upper_hex(bits)),
{
    assert forall|i: int| 0 <= i < 32 implies is_upper_hex_char(#[trigger] upper_hex(bits)[i]) by {
        lemma_nibble_range(bits, i);
    }
}

/// The token of a random identifier shows the marks of its version.
pub proof fn lemma_random_token(bits: u128)
    requires
        is_random_version(bits),
    ensures
        is_random_token(upper_hex(bits)),
{
    lemma_upper_hex_is_token(bits);
}

/// The token that stands for `bits`: its 32 upper-case hexadecimal digits.
pub fn token_from_bits(bits: u128) -> (token: String)
    ensures
        token@ == upper_hex(bits),
        is_token(token@),
{
    let lower = simple_hex(bits);
    let token = to_uppercase(lower.as_str());
    proof {
        assert forall|i: int| 0 <= i < 32 implies '\0' <= #[trigger] lower@[i] <= '\u{7f}' by {
            lemma_nibble_range(bits, i);
        }
        assert forall|i: int| 0 <= i < 32 implies token@[i] == upper_hex(bits)[i] by {
            lemma_nibble_range(bits, i);
        }
        assert(token@ =~= upper_hex(bits));
        lemma_upper_hex_is_token(bits);
    }
    token
}

} // verus!
