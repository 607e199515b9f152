//! User identifiers: 128-bit values, stored as hyphenated lowercase hex text.
use vstd::arithmetic::div_mod::{lemma_basic_div, lemma_div_denominator, lemma_fundamental_div_mod};
use vstd::arithmetic::power::{lemma_pow_positive, pow};
use vstd::prelude::*;

verus! {

/// `uuid::Error`, the uuid crate's parse failure, carried through unchanged.
#[verifier::external_type_specification]
#[verifier::external_body]
pub struct ExUuidError(uuid::Error);

/// The lowercase hex digit for a value in `0..16`.
pub open spec fn hex_digit(d: int) -> char {
    seq!['0', '1', '2', '3', '4', '5', '6', '7', '8', '9', 'a', 'b', 'c', 'd', 'e', 'f'][d]
}

/// The `k`-th of the 32 hex digits of `v`, most significant first.
pub open spec fn nibble(v: u128, k: int) -> int {
    (v as int / pow(16, (31 - k) as nat)) % 16
}

/// Which hex digit stands at position `i` of the hyphenated text.
pub open spec fn digit_position(i: int) -> int {
    if i < 8 {
        i
    } else if i < 13 {
        i - 1
    } else if i < 18 {
        i - 2
    } else if i < 23 {
        i - 3
    } else {
        i - 4
    }
}

/// The hyphenated lowercase form `xxxxxxxx-xxxx-xxxx-xxxx-xxxxxxxxxxxx`.
pub open spec fn uuid_text(v: u128) -> Seq<char> {
    Seq::new(
        36,
        |i: int|
            if i == 8 || i == 13 || i == 18 || i == 23 {
                '-'
            } else {
                hex_digit(nibble(v, digit_position(i)))
            },
    )
}

/// Whether a text is the hyphenated lowercase form of some value.
pub open spec fn is_uuid_text(s: Seq<char>) -> bool {
    exists|v: u128| #[trigger] uuid_text(v) == s
}

/// What the uuid crate reads from a text that is not the hyphenated lowercase
/// form of a value (it also takes upper case, no hyphens, braces, a URN).
pub uninterp spec fn uuid_parse_other(s: Seq<char>) -> Option<u128>;

/// The value that the uuid crate reads from a text, if it reads one: from the
/// hyphenated lowercase form of a value, that value.
pub open spec fn uuid_parse(s: Seq<char>) -> Option<u128> {
    if is_uuid_text(s) {
        Some(choose|v: u128| #[trigger] uuid_text(v) == s)
    } else {
        uuid_parse_other(s)
    }
}

/// The value of a lowercase hex digit character.
pub open spec fn hex_value(c: char) -> int {
    if c == '0' {
        0
    } else if c == '1' {
        1
    } else if c == '2' {
        2
    } else if c == '3' {
        3
    } else if c == '4' {
        4
    } else if c == '5' {
        5
    } else if c == '6' {
        6
    } else if c == '7' {
        7
    } else if c == '8' {
        8
    } else if c == '9' {
        9
    } else if c == 'a' {
        10
    } else if c == 'b' {
        11
    } else if c == 'c' {
        12
    } else if c == 'd' {
        13
    } else if c == 'e' {
        14
    } else {
        15
    }
}

proof fn lemma_hex_value(d: int)
    requires
        0 <= d < 16,
    ensures
        hex_value(hex_digit(d)) == d,
{
    let digits = seq!['0', '1', '2', '3', '4', '5', '6', '7', '8', '9', 'a', 'b', 'c', 'd', 'e', 'f'];
    assert(digits[0] == '0' && digits[1] == '1' && digits[2] == '2' && digits[3] == '3');
    assert(digits[4] == '4' && digits[5] == '5' && digits[6] == '6' && digits[7] == '7');
    assert(digits[8] == '8' && digits[9] == '9' && digits[10] == 'a' && digits[11] == 'b');
    assert(digits[12] == 'c' && digits[13] == 'd' && digits[14] == 'e' && digits[15] == 'f');
}

proof fn lemma_nibble_range(v: u128, k: int)
    ensures
        0 <= nibble(v, k) < 16,
{
    lemma_pow_positive(16, (31 - k) as nat);
}

/// Equal quotients by `16^j` from the top down, where all hex digits agree.
proof fn lemma_quotients_agree(a: u128, b: u128, j: nat)
    requires
        j <= 32,
        forall|k: int| 0 <= k < 32 ==> #[trigger] nibble(a, k) == nibble(b, k),
    ensures
        a as int / pow(16, j) == b as int / pow(16, j),
    decreases 32 - j,
{
    lemma_pow_positive(16, j);
    if j == 32 {
        assert(pow(16, 32) == 0x1_0000_0000_0000_0000_0000_0000_0000_0000) by {
            reveal_with_fuel(pow, 33);
        }
        lemma_basic_div(a as int, pow(16, 32));
        lemma_basic_div(b as int, pow(16, 32));
    } else {
        lemma_quotients_agree(a, b, j + 1);
        let p = pow(16, j);
        assert(pow(16, j + 1) == p * 16) by {
            reveal(pow);
        }
        lemma_div_denominator(a as int, p, 16);
        lemma_div_denominator(b as int, p, 16);
        lemma_fundamental_div_mod(a as int / p, 16);
        lemma_fundamental_div_mod(b as int / p, 16);
        let k = 31 - j;
        assert(nibble(a, k) == nibble(b, k));
        assert((31 - k) as nat == j);
    }
}

/// Different values have different hyphenated forms.
pub proof fn lemma_uuid_text_injective(a: u128, b: u128)
    requires
        uuid_text(a) == uuid_text(b),
    ensures
        a == b,
{
    assert forall|k: int| 0 <= k < 32 implies #[trigger] nibble(a, k) == nibble(b, k) by {
        let i = if k < 8 {
            k
        } else if k < 12 {
            k + 1
        } else if k < 16 {
            k + 2
        } else if k < 20 {
            k + 3
        } else {
            k + 4
        };
        assert(digit_position(i) == k);
        assert(uuid_text(a)[i] == hex_digit(nibble(a, k)));
        assert(uuid_text(b)[i] == hex_digit(nibble(b, k)));
        lemma_nibble_range(a, k);
        lemma_nibble_range(b, k);
        lemma_hex_value(nibble(a, k));
        lemma_hex_value(nibble(b, k));
    }
    lemma_quotients_agree(a, b, 0);
    assert(pow(16, 0) == 1) by {
        reveal(pow);
    }
}

/// The hyphenated form of a value reads back as that value.
pub proof fn lemma_uuid_parse_text(v: u128)
    ensures
        uuid_parse(uuid_text(v)) == Some(v),
{
    assert(is_uuid_text(uuid_text(v)));
    let w = choose|w: u128| #[trigger] uuid_text(w) == uuid_text(v);
    lemma_uuid_text_injective(w, v);
}

/// Relies on `uuid::Uuid::from_u128` and its `Display`: the hyphenated
/// lowercase form of the value.
#[verifier::external_body]
pub(crate) fn format_uuid(v: u128) -> (r: String)
    ensures
        r@ == uuid_text(v),
{
    uuid::Uuid::from_u128(v).to_string()
}

/// Relies on `uuid::Uuid::try_parse` (read back as `as_u128`): the
/// hyphenated lowercase form of a value reads as that value; what it reads
/// from any other text depends on the text alone.
#[verifier::external_body]
pub(crate) fn parse_uuid(s: &str) -> (r: Result<u128, uuid::Error>)
    ensures
        is_uuid_text(s@) ==> r is Ok && uuid_text(r->Ok_0) == s@,
        !is_uuid_text(s@) ==> (r is Ok <==> uuid_parse_other(s@) is Some),
        !is_uuid_text(s@) && r is Ok ==> uuid_parse_other(s@) == Some(r->Ok_0),
{
    match uuid::Uuid::try_parse(s) {
        Ok(u) => Ok(u.as_u128()),
        Err(e) => Err(e),
    }
}

/// Relies on `uuid::Uuid::new_v4`: a random value, of which nothing is
/// promised. It panics only when the system's random source fails.
#[verifier::external_body]
pub(crate) fn random_uuid() -> (r: u128) {
    uuid::Uuid::new_v4().as_u128()
}

} // verus!
