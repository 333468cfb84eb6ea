//! User, room and message ids (UUIDs, held as their 128-bit big-endian value) and
//! their text form.
use vstd::prelude::*;
use vstd::arithmetic::power::pow;

verus! {

/// The hexadecimal digit (lower case) for a value below 16.
pub open spec fn hex_digit(v: int) -> char {
    if v < 10 {
        ((('0' as int) + v) as char)
    } else {
        ((('a' as int) + v - 10) as char)
    }
}

/// The `k`-th hexadecimal digit of an id, counted from the most significant one.
pub open spec fn id_nibble(id: u128, k: int) -> int {
    (id as int / pow(16, (31 - k) as nat)) % 16
}

/// Which of the 32 digits stands at position `i` of the hyphenated text.
pub open spec fn digit_at(i: int) -> int {
    if i < 8 {
        i
    } else if i < 13 {
        i - 1
    } else if i < 18 {
        i - 2
    } else if i < 23 {
        i - 3
    } else {
        i - 4
    }
}

/// The hyphenated lower-case text of an id, as `Display` of `uuid::Uuid` writes
/// it: 8-4-4-4-12 hexadecimal digits, most significant first.
pub open spec fn uuid_text(id: u128) -> Seq<char> {
    Seq::new(
        36,
        |i: int|
            if i == 8 || i == 13 || i == 18 || i == 23 {
                '-'
            } else {
                hex_digit(id_nibble(id, digit_at(i)))
            },
    )
}

/// What `uuid::Uuid::parse_str` reads from a text: the id's value, or `None`.
pub uninterp spec fn uuid_parse(s: Seq<char>) -> Option<u128>;

/// `uuid::Uuid::from_u128(id).to_string()`. Claimed: the hyphenated lower-case
/// text, as the `Display` impl of `Uuid` (`fmt::LowerHex`, `format_hyphenated`)
/// writes it.
#[verifier::external_body]
pub(crate) fn uuid_to_string(id: u128) -> (res: String)
    ensures
        res@ == uuid_text(id),
{
    uuid::Uuid::from_u128(id).to_string()
}

/// `uuid::Uuid::parse_str(s)` as the id's value. Claimed: the result is the named
/// value of the text, and the hyphenated text of an id reads back as that id.
#[verifier::external_body]
pub(crate) fn parse_uuid(s: &str) -> (res: Option<u128>)
    ensures
        res == uuid_parse(s@),
        forall|id: u128| #[trigger] uuid_text(id) == s@ ==> res == Some(id),
{
    uuid::Uuid::parse_str(s).ok().map(|u| u.as_u128())
}

/// `uuid::Uuid::new_v4().to_string()`: a random id's text. Claimed: it is the
/// hyphenated text of some id; which one is random.
#[verifier::external_body]
pub(crate) fn random_uuid_text() -> (res: String)
    ensures
        exists|id: u128| #[trigger] uuid_text(id) == res@,
{
    uuid::Uuid::new_v4().to_string()
}

/// An id is at most 16^32 - 1.
proof fn lemma_id_below_pow32(x: u128)
    ensures
        (x as int) < pow(16, 32),
{
    reveal_with_fuel(pow, 33);
    assert(pow(16, 32) == 340282366920938463463374607431768211456);
}

/// The leading digits of two ids with the same digits agree: the first `n`
/// digits read as a number are the same.
proof fn lemma_same_leading_digits(x: u128, y: u128, n: nat)
    requires
        n <= 32,
        forall|k: int| 0 <= k < 32 ==> #[trigger] id_nibble(x, k) == id_nibble(y, k),
    ensures
        x as int / pow(16, (32 - n) as nat) == y as int / pow(16, (32 - n) as nat),
    decreases n,
{
    if n == 0 {
        lemma_id_below_pow32(x);
        lemma_id_below_pow32(y);
        vstd::arithmetic::div_mod::lemma_basic_div(x as int, pow(16, 32));
        vstd::arithmetic::div_mod::lemma_basic_div(y as int, pow(16, 32));
    } else {
        lemma_same_leading_digits(x, y, (n - 1) as nat);
        let m = (32 - n) as nat;
        let pm = pow(16, m);
        vstd::arithmetic::power::lemma_pow_positive(16, m);
        assert(pow(16, (m + 1) as nat) == 16 * pm) by {
            reveal(pow);
        }
        vstd::arithmetic::div_mod::lemma_div_denominator(x as int, pm, 16);
        vstd::arithmetic::div_mod::lemma_div_denominator(y as int, pm, 16);
        vstd::arithmetic::mul::lemma_mul_is_commutative(pm, 16);
        assert((32 - (n - 1)) as nat == (m + 1) as nat);
        let ax = x as int / pm;
        let ay = y as int / pm;
        assert(ax / 16 == ay / 16);
        assert(id_nibble(x, n - 1) == id_nibble(y, n - 1));
        assert(31 - (n - 1) == m);
        assert(ax % 16 == ay % 16);
        vstd::arithmetic::div_mod::lemma_fundamental_div_mod(ax, 16);
        vstd::arithmetic::div_mod::lemma_fundamental_div_mod(ay, 16);
    }
}

/// Two ids with the same hyphenated text are the same id.
pub proof fn lemma_uuid_text_injective(x: u128, y: u128)
    requires
        uuid_text(x) == uuid_text(y),
    ensures
        x == y,
{
    assert forall|k: int| 0 <= k < 32 implies #[trigger] id_nibble(x, k) == id_nibble(y, k) by {
        let p = if k < 8 {
            k
        } else if k < 12 {
            k + 1
        } else if k < 16 {
            k + 2
        } else if k < 20 {
            k + 3
        } else {
            k + 4
        };
        assert(digit_at(p) == k);
        assert(!(p == 8 || p == 13 || p == 18 || p == 23));
        assert(uuid_text(x)[p] == hex_digit(id_nibble(x, k)));
        assert(uuid_text(y)[p] == hex_digit(id_nibble(y, k)));
        assert(hex_digit(id_nibble(x, k)) == hex_digit(id_nibble(y, k)));
        vstd::arithmetic::power::lemma_pow_positive(16, (31 - k) as nat);
        let a = id_nibble(x, k);
        let b = id_nibble(y, k);
        assert(0 <= a < 16);
        assert(0 <= b < 16);
        assert((hex_digit(a) as int) == (if a < 10 { 48 + a } else { 87 + a }));
        assert((hex_digit(b) as int) == (if b < 10 { 48 + b } else { 87 + b }));
    }
    lemma_same_leading_digits(x, y, 32);
    assert(pow(16, 0) == 1) by {
        reveal(pow);
    }
}

} // verus!
