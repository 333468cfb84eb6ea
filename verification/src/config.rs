//! The server's settings and the reading of numbers from their text.
use vstd::prelude::*;

verus! {

/// The port the server listens on.
pub const SERVER_PORT: u16 = 8000;

/// The server's settings.
#[derive(Debug, Clone)]
pub struct Config {
    pub database_url: String,
    pub jwt_token: String,
    pub jwt_maxage: i64,
    pub port: u16,
}

/// An ASCII decimal digit.
pub open spec fn is_digit(c: char) -> bool {
    '0' <= c && c <= '9'
}

/// Every character is an ASCII decimal digit.
pub open spec fn all_digits(s: Seq<char>) -> bool {
    forall|i: int| 0 <= i < s.len() ==> is_digit(#[trigger] s[i])
}

/// The value of a run of decimal digits.
pub open spec fn digits_value(s: Seq<char>) -> int
    decreases s.len(),
{
    if s.len() == 0 {
        0
    } else {
        digits_value(s.drop_last()) * 10 + ((s.last() as int) - ('0' as int))
    }
}

/// The integer that `str::parse::<i64>` reads: an optional `+` or `-`, then one
/// or more ASCII digits and nothing else, of a value that fits in an `i64`.
pub open spec fn parse_i64_spec(s: Seq<char>) -> Option<i64> {
    let neg = s.len() > 0 && s[0] == '-';
    let signed = s.len() > 0 && (s[0] == '-' || s[0] == '+');
    let body = if signed {
        s.drop_first()
    } else {
        s
    };
    let v = if neg {
        -digits_value(body)
    } else {
        digits_value(body)
    };
    if body.len() == 0 || !all_digits(body) || v < i64::MIN || v > i64::MAX {
        None
    } else {
        Some(v as i64)
    }
}

/// A run of digits is worth zero or more.
proof fn lemma_digits_value_nonneg(s: Seq<char>)
    requires
        all_digits(s),
    ensures
        digits_value(s) >= 0,
    decreases s.len(),
{
    if s.len() > 0 {
        assert(is_digit(s[s.len() - 1]));
        assert(all_digits(s.drop_last()));
        lemma_digits_value_nonneg(s.drop_last());
    }
}

/// A longer run of digits is worth at least as much as its prefix.
proof fn lemma_digits_value_grows(s: Seq<char>, i: int, j: int)
    requires
        0 <= i <= j <= s.len(),
        all_digits(s),
    ensures
        digits_value(s.take(i)) <= digits_value(s.take(j)),
    decreases j - i,
{
    if i < j {
        lemma_digits_value_grows(s, i, j - 1);
        assert(s.take(j).drop_last() =~= s.take(j - 1));
        assert(is_digit(s[j - 1]));
        lemma_digits_value_nonneg(s.take(j - 1));
    }
}

/// Reads a decimal `i64` as `str::parse::<i64>` does.
pub fn parse_i64(s: &str) -> (res: Option<i64>)
    ensures
        res == parse_i64_spec(s@),
{
    let n = s.unicode_len();
    let mut start: usize = 0;
    let mut neg = false;
    if n > 0 {
        let c = s.get_char(0);
        if c == '-' {
            neg = true;
            start = 1;
        } else if c == '+' {
            start = 1;
        }
    }
    let ghost body = s@.skip(start as int);
    assert(start == 1 ==> body =~= s@.drop_first());
    assert(start == 0 ==> body =~= s@);
    if start == n {
        return None;
    }
    // The magnitude, at most 2^63 (the magnitude of i64::MIN).

    let limit: u64 = 9223372036854775808;
    let mut mag: u64 = 0;
    let mut i: usize = start;
    while i < n
        invariant
            n == s@.len(),
            start <= i <= n,
            start < n,
            body == s@.skip(start as int),
            forall|k: int| 0 <= k < i - start ==> is_digit(#[trigger] body[k]),
            mag as int == digits_value(body.take(i - start)),
            mag <= limit,
            start == 1 <==> (s@.len() > 0 && (s@[0] == '-' || s@[0] == '+')),
            start == 0 || start == 1,
            limit == 9223372036854775808u64,
            start == 1 ==> body == s@.drop_first(),
            start == 0 ==> body == s@,
            neg <==> (s@.len() > 0 && s@[0] == '-'),
        decreases n - i,
    {
        let c = s.get_char(i);
        assert(body[i - start] == c);
        if !('0' <= c && c <= '9') {
            assert(!all_digits(body));
            return None;
        }
        let d = (c as u32 - '0' as u32) as u64;
        assert(d <= 9);
        assert(body.take(i + 1 - start).drop_last() =~= body.take(i - start));
        if mag > (limit - d) / 10 {
            // Already beyond 2^63: so is the whole run.
            proof {
                assert(forall|k: int| 0 <= k < i + 1 - start ==> is_digit(#[trigger] body[k]));
                let t = body.take(i + 1 - start);
                assert(t.last() == c);
                assert(digits_value(t) == mag * 10 + d);
                assert(digits_value(t) > limit);
                if all_digits(body) {
                    lemma_digits_value_grows(body, i + 1 - start, body.len() as int);
                    assert(body.take(body.len() as int) =~= body);
                }
            }
            return None;
        }
        mag = mag * 10 + d;
        i = i + 1;
    }
    assert(body.take(n - start) =~= body);
    assert(all_digits(body));
    if neg {
        if mag == limit {
            Some(i64::MIN)
        } else {
            Some(-(mag as i64))
        }
    } else {
        if mag > 9223372036854775807 {
            None
        } else {
            Some(mag as i64)
        }
    }
}

impl Config {
    /// The settings read from the database URL, the token secret and the token
    /// lifetime's text; `None` where the lifetime is no `i64`. The port is 8000.
    pub fn from_values(database_url: String, jwt_token: String, jwt_maxage: &str) -> (res: Option<
        Config,
    >)
        ensures
            res is None <==> parse_i64_spec(jwt_maxage@) is None,
            res matches Some(c) ==> {
                &&& c.database_url@ == database_url@
                &&& c.jwt_token@ == jwt_token@
                &&& Some(c.jwt_maxage) == parse_i64_spec(jwt_maxage@)
                &&& c.port == SERVER_PORT
            },
    {
        match parse_i64(jwt_maxage) {
            Some(m) => Some(Config { database_url, jwt_token, jwt_maxage: m, port: SERVER_PORT }),
            None => None,
        }
    }
}

} // verus!
