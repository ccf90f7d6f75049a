//! Record identities and their canonical text.

use vstd::arithmetic::div_mod::{lemma_basic_div, lemma_div_denominator, lemma_fundamental_div_mod};
use vstd::arithmetic::power::{lemma_pow1, lemma_pow_adds, lemma_pow_positive, pow};
use vstd::prelude::*;

verus! {

/// The identity of a record: a 128-bit UUID, held as its number.
#[derive(Clone, Copy, Debug, PartialEq, Eq, Structural, Hash)]
pub struct RecordId {
    pub value: u128,
}

/// The number of an identity that may be missing.
pub open spec fn id_number(id: Option<RecordId>) -> Option<u128> {
    match id {
        Some(id) => Some(id.value),
        None => None,
    }
}

/// The lower-case hexadecimal digit for `n`, which is at least 0 and under 16.
pub open spec fn hex_digit(n: int) -> char {
    seq!['0', '1', '2', '3', '4', '5', '6', '7', '8', '9', 'a', 'b', 'c', 'd', 'e', 'f'][n]
}

/// The digit of `value` at `place`, counted from 0 for the most significant of its 32.
pub open spec fn digit_at(value: u128, place: int) -> int {
    (value as int / pow(16, (31 - place) as nat)) % 16
}

/// Of the 36 characters of the canonical text, the four that are hyphens.
pub open spec fn is_hyphen_place(i: int) -> bool {
    i == 8 || i == 13 || i == 18 || i == 23
}

/// Which of the 32 digits stands at character `i` of the canonical text.
pub open spec fn digit_place(i: int) -> int {
    if i < 8 {
        i
    } else if i < 13 {
        i - 1
    } else if i < 18 {
        i - 2
    } else if i < 23 {
        i - 3
    } else {
        i - 4
    }
}

/// The canonical text of a UUID: its 32 hexadecimal digits in lower case, most significant
/// first, in groups of 8, 4, 4, 4 and 12 with a hyphen between two groups.
pub open spec fn hyphenated(value: u128) -> Seq<char> {
    Seq::new(
        36,
        |i: int|
            if is_hyphen_place(i) {
                '-'
            } else {
                hex_digit(digit_at(value, digit_place(i)))
            },
    )
}

/// Whether `c` may occur in a canonical text.
pub open spec fn is_canonical_char(c: char) -> bool {
    c == '-' || ('0' <= c && c <= '9') || ('a' <= c && c <= 'f')
}

/// Makes a `uuid::Uuid` of the number with `Uuid::from_u128` and renders it with its
/// `Display`, which writes the hyphenated lower-case form of the sixteen bytes, the
/// number's most significant byte first.
#[verifier::external_body]
fn uuid_text(value: u128) -> (text: String)
    ensures
        text@ == hyphenated(value),
{
    uuid::Uuid::from_u128(value).to_string()
}

impl RecordId {
    /// The identity whose number is `value`.
    pub fn from_u128(value: u128) -> (id: RecordId)
        ensures
            id.value == value,
    {
        RecordId { value }
    }

    /// The number of this identity.
    pub fn as_u128(&self) -> (value: u128)
        ensures
            value == self.value,
    {
        self.value
    }

    /// The canonical text of this identity, as it stands in a statement.
    pub fn canonical(&self) -> (text: String)
        ensures
            text@ == hyphenated(self.value),
    {
        uuid_text(self.value)
    }
}

/// A canonical text has 36 characters, each a hyphen or a lower-case hexadecimal digit.
pub proof fn lemma_hyphenated_alphabet(value: u128)
    ensures
        hyphenated(value).len() == 36,
        forall|i: int| 0 <= i < 36 ==> is_canonical_char(#[trigger] hyphenated(value)[i]),
{
    assert forall|i: int| 0 <= i < 36 implies is_canonical_char(#[trigger] hyphenated(value)[i]) by {
        if !is_hyphen_place(i) {
            assert(0 <= digit_at(value, digit_place(i)) < 16);
        }
    }
}

/// A canonical text can stand between two single quotes as it is: nothing in it ends the
/// literal or escapes a character of it.
pub proof fn lemma_hyphenated_is_closed(value: u128)
    ensures
        crate::escape::closed_literal(hyphenated(value)),
        crate::escape::escaped(hyphenated(value)) == hyphenated(value),
{
    lemma_hyphenated_alphabet(value);
    crate::escape::lemma_plain_text(hyphenated(value));
}

/// Sixteen to the 32nd power is two to the 128th: every identity's number has 32 digits.
proof fn lemma_pow16_32()
    ensures
        pow(16, 32) == 0x1_0000_0000_0000_0000_0000_0000_0000_0000int,
{
    lemma_pow1(16);
    lemma_pow_adds(16, 1, 1);
    assert(pow(16, 2) == 0x100int);
    lemma_pow_adds(16, 2, 2);
    assert(pow(16, 4) == 0x1_0000int);
    lemma_pow_adds(16, 4, 4);
    assert(pow(16, 8) == 0x1_0000_0000int);
    lemma_pow_adds(16, 8, 8);
    assert(pow(16, 16) == 0x1_0000_0000_0000_0000int);
    lemma_pow_adds(16, 16, 16);
}

/// What is left of a number without its last `dropped` digits is sixteen times what is left
/// without one digit more, and the digit that went.
proof fn lemma_digit_step(value: int, dropped: nat)
    requires
        0 <= value,
    ensures
        value / pow(16, dropped) == 16 * (value / pow(16, dropped + 1)) + (value / pow(
            16,
            dropped,
        )) % 16,
{
    lemma_pow_positive(16, dropped);
    lemma_pow_adds(16, dropped, 1);
    lemma_pow1(16);
    lemma_div_denominator(value, pow(16, dropped), 16);
    lemma_fundamental_div_mod(value / pow(16, dropped), 16);
}

/// Two numbers with the same 32 digits agree on what is left without the last digits,
/// however many are dropped.
proof fn lemma_same_digits(a: u128, b: u128, dropped: nat)
    requires
        dropped <= 32,
        forall|place: int| 0 <= place < 32 ==> digit_at(a, place) == digit_at(b, place),
    ensures
        a as int / pow(16, dropped) == b as int / pow(16, dropped),
    decreases 32 - dropped,
{
    if dropped == 32 {
        lemma_pow16_32();
        lemma_basic_div(a as int, pow(16, 32));
        lemma_basic_div(b as int, pow(16, 32));
    } else {
        lemma_same_digits(a, b, dropped + 1);
        lemma_digit_step(a as int, dropped);
        lemma_digit_step(b as int, dropped);
        assert(digit_at(a, 31 - dropped) == digit_at(b, 31 - dropped));
    }
}

/// Different digits are written differently.
proof fn lemma_hex_digit_injective(m: int, n: int)
    requires
        0 <= m < 16,
        0 <= n < 16,
        hex_digit(m) == hex_digit(n),
    ensures
        m == n,
{
}

/// Two identities with the same canonical text are the same identity: a statement that
/// names one record names no other.
pub proof fn lemma_hyphenated_injective(a: u128, b: u128)
    requires
        hyphenated(a) == hyphenated(b),
    ensures
        a == b,
{
    assert forall|place: int| 0 <= place < 32 implies digit_at(a, place) == digit_at(b, place) by {
        let i = if place < 8 {
            place
        } else if place < 12 {
            place + 1
        } else if place < 16 {
            place + 2
        } else if place < 20 {
            place + 3
        } else {
            place + 4
        };
        assert(hyphenated(a)[i] == hex_digit(digit_at(a, place)));
        lemma_hex_digit_injective(digit_at(a, place), digit_at(b, place));
    }
    lemma_same_digits(a, b, 0);
    assert(pow(16, 0) == 1) by {
        vstd::arithmetic::power::lemma_pow0(16);
    }
}

} // verus!
