//! Ownership tokens: 128-bit identifiers, one per acquisition attempt, and
//! the text under which a token is stored at a storage instance.

use vstd::arithmetic::div_mod::{lemma_basic_div, lemma_div_denominator, lemma_fundamental_div_mod};
use vstd::arithmetic::power::{lemma_pow0, lemma_pow1, lemma_pow_adds, lemma_pow_positive, pow};
use vstd::prelude::*;

verus! {

/// The character that writes the hexadecimal digit `d`, for `0 <= d <= 15`,
/// in lower case.
pub open spec fn hex_char(d: int) -> char {
    seq!['0', '1', '2', '3', '4', '5', '6', '7', '8', '9', 'a', 'b', 'c', 'd', 'e', 'f'][d]
}

/// The `k`-th of the 32 hexadecimal digits of `id`, counted from the most
/// significant one (`k == 0`).
pub open spec fn hex_digit(id: u128, k: int) -> int {
    (id as int / pow(16, (31 - k) as nat)) % 16
}

/// Whether position `i` of the 36-character text holds a hyphen.
pub open spec fn is_hyphen_position(i: int) -> bool {
    i == 8 || i == 13 || i == 18 || i == 23
}

/// How many hexadecimal digits stand before position `i` of the text.
pub open spec fn digits_before(i: int) -> int {
    i - (if i > 8 { 1int } else { 0 }) - (if i > 13 { 1int } else { 0 })
      - (if i > 18 { 1int } else { 0 }) - (if i > 23 { 1int } else { 0 })
}

/// The text of a token: its 32 lower-case hexadecimal digits, most
/// significant first, in groups of 8, 4, 4, 4 and 12 separated by hyphens.
pub open spec fn hyphenated(id: u128) -> Seq<char> {
    Seq::new(
        36,
        |i: int|
            if is_hyphen_position(i) {
                '-'
            } else {
                hex_char(hex_digit(id, digits_before(i)))
            },
    )
}

/// The number that the first `k` hexadecimal digits of `id` write.
spec fn leading(id: u128, k: int) -> int {
    id as int / pow(16, (32 - k) as nat)
}

proof fn lemma_leading_step(id: u128, k: int)
    requires
        0 <= k < 32,
    ensures
        0 <= hex_digit(id, k) < 16,
        leading(id, k + 1) == 16 * leading(id, k) + hex_digit(id, k),
{
    let m = (31 - k) as nat;
    let unit = pow(16, m);
    lemma_pow_positive(16, m);
    assert(pow(16, m + 1) == unit * 16) by {
        lemma_pow_adds(16, m, 1);
        lemma_pow1(16);
    }
    lemma_div_denominator(id as int, unit, 16);
    lemma_fundamental_div_mod(id as int / unit, 16);
}

proof fn lemma_square(e: nat, value: int)
    requires
        pow(16, e) == value,
    ensures
        pow(16, e + e) == value * value,
{
    lemma_pow_adds(16, e, e);
}

proof fn lemma_leading_ends(id: u128)
    ensures
        leading(id, 0) == 0,
        leading(id, 32) == id,
{
    lemma_pow0(16);
    lemma_pow1(16);
    lemma_square(1, 0x10);
    lemma_square(2, 0x100);
    lemma_square(4, 0x1_0000);
    lemma_square(8, 0x1_0000_0000);
    lemma_square(16, 0x1_0000_0000_0000_0000);
    lemma_basic_div(id as int, pow(16, 32));
}

proof fn lemma_digits_determine(a: u128, b: u128, k: int)
    requires
        0 <= k <= 32,
        forall|j: int| 0 <= j < k ==> hex_digit(a, j) == hex_digit(b, j),
    ensures
        leading(a, k) == leading(b, k),
    decreases k,
{
    if k == 0 {
        lemma_leading_ends(a);
        lemma_leading_ends(b);
    } else {
        lemma_digits_determine(a, b, k - 1);
        lemma_leading_step(a, k - 1);
        lemma_leading_step(b, k - 1);
    }
}

proof fn lemma_hex_char_injective(x: int, y: int)
    requires
        0 <= x < 16,
        0 <= y < 16,
        hex_char(x) == hex_char(y),
    ensures
        x == y,
{
}

/// Two tokens that are written alike are the same token: an instance that
/// compares texts compares tokens.
pub proof fn hyphenated_is_injective(a: u128, b: u128)
    requires
        hyphenated(a) == hyphenated(b),
    ensures
        a == b,
{
    assert forall|k: int| 0 <= k < 32 implies hex_digit(a, k) == hex_digit(b, k) by {
        let i = if k < 8 {
            k
        } else if k < 12 {
            k + 1
        } else if k < 16 {
            k + 2
        } else if k < 20 {
            k + 3
        } else {
            k + 4
        };
        assert(!is_hyphen_position(i) && digits_before(i) == k);
        assert(hyphenated(a)[i] == hex_char(hex_digit(a, k)));
        assert(hyphenated(b)[i] == hex_char(hex_digit(b, k)));
        lemma_leading_step(a, k);
        lemma_leading_step(b, k);
        lemma_hex_char_injective(hex_digit(a, k), hex_digit(b, k));
    }
    lemma_digits_determine(a, b, 32);
    lemma_leading_ends(a);
    lemma_leading_ends(b);
}

/// Whether `id` carries the marks of a randomly generated identifier: the
/// version digit is 4 and the two variant bits are `10`.
pub open spec fn is_random_id(id: u128) -> bool {
    id & 0xF000_C000_0000_0000_0000u128 == 0x4000_8000_0000_0000_0000u128
}

/// Draws a fresh random identifier with `uuid::Uuid::new_v4` and hands it out
/// as the 128-bit number that `Uuid::as_u128` gives.
///
/// Trusted: the value comes from the operating system's random source, so
/// nothing is claimed of it but the version and variant bits that `new_v4`
/// always sets. `new_v4` panics if the system cannot supply random bytes.
#[verifier::external_body]
pub(crate) fn random_id() -> (id: u128)
    ensures
        is_random_id(id),
{
    uuid::Uuid::new_v4().as_u128()
}

/// Renders `id` with `uuid::Uuid`'s `Display` implementation, after
/// `Uuid::from_u128`.
///
/// Trusted: `Display` for `Uuid` writes the lower-case hyphenated form, which
/// is what [`hyphenated`] spells out.
#[verifier::external_body]
pub(crate) fn id_text(id: u128) -> (text: String)
    ensures
        text@ == hyphenated(id),
{
    uuid::Uuid::from_u128(id).to_string()
}

} // verus!
