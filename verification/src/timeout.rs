//! The gRPC `grpc-timeout` header: a decimal number followed by a one-letter unit.
use vstd::prelude::*;
use crate::proto::Duration;

verus! {

/// A span of time, as whole seconds and the nanoseconds of the last second.
#[derive(Clone, Copy, Debug, PartialEq, Eq, Structural)]
pub struct Timeout {
    pub secs: u64,
    pub nanos: u32,
}

pub open spec fn is_digit(c: char) -> bool {
    '0' <= c && c <= '9'
}

pub open spec fn all_digits(s: Seq<char>) -> bool {
    forall|i: int| 0 <= i < s.len() ==> is_digit(#[trigger] s[i])
}

/// The number that a string of decimal digits stands for.
pub open spec fn decimal_value(s: Seq<char>) -> int
    decreases s.len(),
{
    if s.len() == 0 {
        0
    } else {
        decimal_value(s.drop_last()) * 10 + (s.last() as int - 48)
    }
}

/// What `u64::from_str` gives: an optional `+`, then one or more decimal
/// digits whose value fits in a `u64`; anything else is an error.
pub open spec fn parse_u64(s: Seq<char>) -> Option<u64> {
    let digits = if s.len() > 0 && s[0] == '+' {
        s.drop_first()
    } else {
        s
    };
    if digits.len() > 0 && all_digits(digits) && decimal_value(digits) <= u64::MAX {
        Some(decimal_value(digits) as u64)
    } else {
        None
    }
}

/// The timeout that a `grpc-timeout` value stands for: its last character is
/// the unit (`H`ours, `M`inutes, `S`econds, `m`illiseconds, `u`microseconds,
/// `n`anoseconds), the rest is the amount. A value that cannot be read (empty,
/// an amount that is not a `u64`, another unit, or hours or minutes whose
/// seconds do not fit in a `u64`) has none.
pub open spec fn timeout_value(s: Seq<char>) -> Option<Timeout> {
    if s.len() == 0 {
        None
    } else {
        let unit = s.last();
        match parse_u64(s.drop_last()) {
            None => None,
            Some(v) => if unit == 'H' {
                if v * 3600 <= u64::MAX {
                    Some(Timeout { secs: (v * 3600) as u64, nanos: 0 })
                } else {
                    None
                }
            } else if unit == 'M' {
                if v * 60 <= u64::MAX {
                    Some(Timeout { secs: (v * 60) as u64, nanos: 0 })
                } else {
                    None
                }
            } else if unit == 'S' {
                Some(Timeout { secs: v, nanos: 0 })
            } else if unit == 'm' {
                Some(Timeout { secs: v / 1000, nanos: ((v % 1000) * 1000000) as u32 })
            } else if unit == 'u' {
                Some(Timeout { secs: v / 1000000, nanos: ((v % 1000000) * 1000) as u32 })
            } else if unit == 'n' {
                Some(Timeout { secs: v / 1000000000, nanos: (v % 1000000000) as u32 })
            } else {
                None
            },
        }
    }
}

/// A prefix of a digit string stands for no more than the whole string.
pub proof fn lemma_decimal_prefix_le(s: Seq<char>, i: int)
    requires
        all_digits(s),
        0 <= i <= s.len(),
    ensures
        0 <= decimal_value(s.take(i)) <= decimal_value(s),
    decreases s.len(),
{
    if i == s.len() {
        assert(s.take(i) =~= s);
        lemma_decimal_nonneg(s);
    } else {
        assert(all_digits(s.drop_last()));
        lemma_decimal_prefix_le(s.drop_last(), i);
        assert(s.drop_last().take(i) =~= s.take(i));
        lemma_decimal_nonneg(s.drop_last());
        assert(is_digit(s[s.len() - 1]));
    }
}

/// A digit string stands for a number that is not negative.
pub proof fn lemma_decimal_nonneg(s: Seq<char>)
    requires
        all_digits(s),
    ensures
        decimal_value(s) >= 0,
    decreases s.len(),
{
    if s.len() > 0 {
        assert(all_digits(s.drop_last()));
        lemma_decimal_nonneg(s.drop_last());
        assert(is_digit(s[s.len() - 1]));
    }
}

/// Reads a decimal `u64` as `u64::from_str` does.
pub fn parse_decimal_u64(s: &str) -> (r: Option<u64>)
    ensures
        r == parse_u64(s@),
{
    let n: usize = s.unicode_len();
    let mut start: usize = 0;
    if n > 0 && s.get_char(0) == '+' {
        start = 1;
    }
    let ghost digits = if s@.len() > 0 && s@[0] == '+' {
        s@.drop_first()
    } else {
        s@
    };
    assert(digits =~= s@.subrange(start as int, n as int));
    if start >= n {
        return None;
    }
    let mut value: u64 = 0;
    let mut i: usize = start;
    while i < n
        invariant
            start <= i <= n,
            n == s@.len(),
            digits =~= s@.subrange(start as int, n as int),
            digits == (if s@.len() > 0 && s@[0] == '+' {
                s@.drop_first()
            } else {
                s@
            }),
            digits.len() > 0,
            all_digits(digits.take(i - start)),
            value == decimal_value(digits.take(i - start)),
        decreases n - i,
    {
        let c = s.get_char(i);
        let ghost prefix = digits.take(i + 1 - start);
        assert(prefix.drop_last() =~= digits.take(i - start));
        assert(prefix.last() == c);
        if c < '0' || c > '9' {
            assert(!all_digits(digits)) by {
                assert(!is_digit(digits[i - start]));
            }
            return None;
        }
        let d: u64 = (c as u64) - 48;
        assert(all_digits(prefix));
        if value > (u64::MAX - d) / 10 {
            assert(decimal_value(prefix) > u64::MAX) by (nonlinear_arith)
                requires
                    decimal_value(prefix) == value * 10 + d,
                    value > (u64::MAX - d) / 10,
                    d <= 9,
            {
            }
            proof {
                if all_digits(digits) {
                    lemma_decimal_prefix_le(digits, (i + 1 - start) as int);
                }
            }
            return None;
        }
        value = value * 10 + d;
        i = i + 1;
    }
    assert(digits.take(n - start) =~= digits);
    Some(value)
}

/// Reads a gRPC timeout value (see `timeout_value`); `None` when the value
/// cannot be read.
pub fn parse_grpc_timeout(header_value: &str) -> (r: Option<Timeout>)
    ensures
        r == timeout_value(header_value@),
{
    if header_value.is_empty() {
        return None;
    }
    let n: usize = header_value.unicode_len();
    let digits = header_value.substring_char(0, n - 1);
    let unit = header_value.get_char(n - 1);
    assert(digits@ =~= header_value@.drop_last());
    let timeout = match parse_decimal_u64(digits) {
        Some(t) => t,
        None => return None,
    };
    if unit == 'H' {
        match timeout.checked_mul(3600) {
            Some(secs) => Some(Timeout { secs, nanos: 0 }),
            None => None,
        }
    } else if unit == 'M' {
        match timeout.checked_mul(60) {
            Some(secs) => Some(Timeout { secs, nanos: 0 }),
            None => None,
        }
    } else if unit == 'S' {
        Some(Timeout { secs: timeout, nanos: 0 })
    } else if unit == 'm' {
        Some(Timeout { secs: timeout / 1000, nanos: ((timeout % 1000) as u32) * 1000000 })
    } else if unit == 'u' {
        Some(Timeout { secs: timeout / 1000000, nanos: ((timeout % 1000000) as u32) * 1000 })
    } else if unit == 'n' {
        Some(Timeout { secs: timeout / 1000000000, nanos: (timeout % 1000000000) as u32 })
    } else {
        None
    }
}

/// What `prost_types::Duration::try_from(std::time::Duration)` gives for a
/// timeout: the seconds as an `i64` (an error when they do not fit) and the
/// nanoseconds, which are already in range, so normalising changes nothing.
#[verifier::external_body]
fn duration_try_from(secs: u64, nanos: u32) -> (r: Option<Duration>)
    requires
        nanos < 1000000000,
    ensures
        r == (if secs <= i64::MAX {
            Some(Duration { seconds: secs as i64, nanos: nanos as i32 })
        } else {
            None
        }),
{
    match prost_types::Duration::try_from(std::time::Duration::new(secs, nanos)) {
        Ok(d) => Some(Duration { seconds: d.seconds, nanos: d.nanos }),
        Err(_) => None,
    }
}

/// The protobuf `Duration` of a timeout: its seconds, saturated at
/// `i64::MAX` when they do not fit in an `i64`, and its nanoseconds.
pub open spec fn proto_duration(t: Option<Timeout>) -> Option<Duration> {
    match t {
        Some(t) => Some(
            Duration {
                seconds: if t.secs <= i64::MAX {
                    t.secs as i64
                } else {
                    i64::MAX
                },
                nanos: t.nanos as i32,
            },
        ),
        None => None,
    }
}

/// Converts a timeout into the protobuf `Duration` of the client header
/// (see `proto_duration`): a timeout too long for `try_from` is saturated.
pub fn to_proto_duration(t: Option<Timeout>) -> (r: Option<Duration>)
    requires
        t matches Some(t) ==> t.nanos < 1000000000,
    ensures
        r == proto_duration(t),
{
    match t {
        Some(t) => match duration_try_from(t.secs, t.nanos) {
            Some(d) => Some(d),
            None => Some(Duration { seconds: i64::MAX, nanos: t.nanos as i32 }),
        },
        None => None,
    }
}

} // verus!
