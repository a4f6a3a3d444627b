//! Configuration for the HTTP responder service.
//!
//! The service listens on two ports. Each port is resolved from an
//! externally supplied text value (the `PORT` and `SECOND_PORT` environment
//! variables, read by the caller) and falls back to a documented default
//! when no value is supplied. A value that does not parse as a 16-bit
//! unsigned integer is a fatal configuration error.

use vstd::prelude::*;
use vstd::string::StringExecFns;

verus! {

/// The two listening ports of the HTTP responder, immutable once loaded.
#[derive(Clone, Copy, Debug, PartialEq, Eq, Structural)]
pub struct Config {
    pub port: u16,
    pub second_port: u16,
}

/// A fatal configuration error: one of the supplied port values does not
/// parse as a 16-bit unsigned integer.
#[derive(Clone, Copy, Debug, PartialEq, Eq, Structural)]
pub enum ConfigError {
    InvalidPort,
    InvalidSecondPort,
}

/// Default for the first listening port when no value is supplied.
pub fn default_port() -> (p: u16)
    ensures
        p == 8080,
{
    8080
}

/// Default for the second listening port when no value is supplied.
pub fn default_second_port() -> (p: u16)
    ensures
        p == 8888,
{
    8888
}

/// The byte is an ASCII decimal digit.
pub open spec fn is_ascii_digit(b: u8) -> bool {
    48 <= b && b <= 57
}

/// Numeric value of an ASCII decimal digit byte.
pub open spec fn digit_value(b: u8) -> int {
    b - 48
}

/// Every byte of the sequence is an ASCII decimal digit.
pub open spec fn all_digits(s: Seq<u8>) -> bool {
    forall|i: int| 0 <= i < s.len() ==> is_ascii_digit(#[trigger] s[i])
}

/// Value of a sequence of ASCII digit bytes read as a decimal numeral,
/// most significant digit first.
pub open spec fn dec_value(s: Seq<u8>) -> int
    decreases s.len(),
{
    if s.len() == 0 {
        0
    } else {
        dec_value(s.drop_last()) * 10 + digit_value(s.last())
    }
}

/// The digits of a candidate port string: an optional leading `+` sign is
/// not part of the numeral.
pub open spec fn port_digits(s: Seq<u8>) -> Seq<u8> {
    if s.len() > 0 && s[0] == 43 {
        s.skip(1)
    } else {
        s
    }
}

/// The byte string parses as a 16-bit unsigned integer: after an optional
/// leading `+` sign, at least one digit, only digits, and a value of at
/// most 65535.
pub open spec fn is_valid_port_str(s: Seq<u8>) -> bool {
    &&& port_digits(s).len() > 0
    &&& all_digits(port_digits(s))
    &&& dec_value(port_digits(s)) <= 65535
}

/// The port number a valid port string denotes.
pub open spec fn port_value(s: Seq<u8>) -> int {
    dec_value(port_digits(s))
}

proof fn lemma_dec_value_nonneg(s: Seq<u8>)
    requires
        all_digits(s),
    ensures
        dec_value(s) >= 0,
    decreases s.len(),
{
    if s.len() > 0 {
        assert(all_digits(s.drop_last()));
        lemma_dec_value_nonneg(s.drop_last());
    }
}

/// A decimal numeral is at least as large as any of its prefixes.
proof fn lemma_dec_value_prefix(s: Seq<u8>, k: int)
    requires
        all_digits(s),
        0 <= k <= s.len(),
    ensures
        dec_value(s.take(k)) <= dec_value(s),
    decreases s.len() - k,
{
    if k == s.len() {
        assert(s.take(k) =~= s);
    } else {
        assert(s.take(k + 1).drop_last() =~= s.take(k));
        assert(s.take(k + 1).last() == s[k]);
        assert(all_digits(s.take(k))) by {
            assert(forall|i: int|
                0 <= i < k ==> s.take(k)[i] == #[trigger] s[i]);
        }
        lemma_dec_value_nonneg(s.take(k));
        assert(dec_value(s.take(k + 1)) >= dec_value(s.take(k)));
        lemma_dec_value_prefix(s, k + 1);
    }
}

/// Parse a byte string as a port number. Returns `Some` exactly when the
/// string is, after an optional leading `+` sign, a non-empty run of ASCII
/// decimal digits denoting a value of at most 65535.
pub fn parse_port(s: &Vec<u8>) -> (r: Option<u16>)
    ensures
        match r {
            Some(v) => is_valid_port_str(s@) && v as int == port_value(s@),
            None => !is_valid_port_str(s@),
        },
{
    let mut start: usize = 0;
    if s.len() > 0 && s[0] == 43u8 {
        start = 1;
    }
    let ghost d: Seq<u8> = port_digits(s@);
    proof {
        assert(d =~= s@.skip(start as int));
    }
    if start >= s.len() {
        return None;
    }
    let mut acc: u32 = 0;
    let mut i: usize = start;
    while i < s.len()
        invariant
            start <= i <= s.len(),
            s@.len() > start,
            d == s@.skip(start as int),
            d == port_digits(s@),
            d.len() == s@.len() - start,
            forall|j: int| 0 <= j < d.len() ==> d[j] == #[trigger] s@[start + j],
            acc <= 65535,
            all_digits(d.take(i - start)),
            acc as int == dec_value(d.take(i - start)),
        decreases s.len() - i,
    {
        let b = s[i];
        proof {
            assert(d[(i - start) as int] == s@[start + (i - start)]);
        }
        if b < 48 || b > 57 {
            assert(!is_ascii_digit(d[(i - start) as int]));
            return None;
        }
        let digit: u32 = (b - 48) as u32;
        let next: u32 = acc * 10 + digit;
        proof {
            let k = (i - start) as int;
            assert(d.take(k + 1).drop_last() =~= d.take(k));
            assert(d.take(k + 1).last() == d[k]);
            assert(next as int == dec_value(d.take(k + 1)));
            assert(all_digits(d.take(k + 1))) by {
                assert(forall|j: int|
                    0 <= j < k + 1 ==> d.take(k + 1)[j] == #[trigger] d[j]);
            }
        }
        if next > 65535 {
            proof {
                if all_digits(d) {
                    lemma_dec_value_prefix(d, i - start + 1);
                }
            }
            return None;
        }
        acc = next;
        i = i + 1;
    }
    proof {
        assert(d.take(i - start) =~= d);
    }
    Some(acc as u16)
}

/// Load the service configuration from the externally supplied raw values
/// of the two port variables (`None` when the variable is unset). A missing
/// value falls back to its default; an unparseable value is a fatal error,
/// with the first port checked first.
pub fn load_config(port: Option<Vec<u8>>, second_port: Option<Vec<u8>>) -> (r: Result<
    Config,
    ConfigError,
>)
    ensures
        match r {
            Ok(c) => {
                &&& match port {
                    Some(p) => is_valid_port_str(p@) && c.port as int == port_value(p@),
                    None => c.port == 8080,
                }
                &&& match second_port {
                    Some(p) => is_valid_port_str(p@) && c.second_port as int == port_value(p@),
                    None => c.second_port == 8888,
                }
            },
            Err(e) => match e {
                ConfigError::InvalidPort => port matches Some(p) && !is_valid_port_str(p@),
                ConfigError::InvalidSecondPort => {
                    &&& (match port {
                        Some(p) => is_valid_port_str(p@),
                        None => true,
                    })
                    &&& second_port matches Some(p) && !is_valid_port_str(p@)
                },
            },
        },
{
    let first: u16 = match port {
        Some(p) => match parse_port(&p) {
            Some(v) => v,
            None => {
                return Err(ConfigError::InvalidPort);
            },
        },
        None => default_port(),
    };
    let second: u16 = match second_port {
        Some(p) => match parse_port(&p) {
            Some(v) => v,
            None => {
                return Err(ConfigError::InvalidSecondPort);
            },
        },
        None => default_second_port(),
    };
    Ok(Config { port: first, second_port: second })
}

/// A human-readable description of a configuration error.
pub fn describe_config_error(e: &ConfigError) -> (s: String)
    ensures
        e is InvalidPort ==> s@ == "PORT is not an integer between 0 and 65535"@,
        e is InvalidSecondPort ==> s@ == "SECOND_PORT is not an integer between 0 and 65535"@,
{
    match e {
        ConfigError::InvalidPort => String::from_str("PORT is not an integer between 0 and 65535"),
        ConfigError::InvalidSecondPort => String::from_str(
            "SECOND_PORT is not an integer between 0 and 65535",
        ),
    }
}

} // verus!
