//! Startup configuration: the listen port. The port is injected from the
//! environment by the surrounding program; an absent value defaults to
//! 10000, an invalid one is a fatal configuration error - the service must
//! not silently listen on a wrong port.

use vstd::prelude::*;
use vstd::string::StrSliceExecFns;

verus! {

/// A configuration error, fatal at startup.
#[derive(Clone, Copy, PartialEq, Eq, Structural, Debug)]
pub enum ConfigError {
    InvalidPort,
}

/// The listen port used when the environment supplies none.
pub const DEFAULT_PORT: u16 = 10000;

/// Whether a character is a decimal digit.
pub open spec fn is_decimal_digit(c: char) -> bool {
    '0' <= c && c <= '9'
}

/// The numeric value of a decimal digit.
pub open spec fn digit_value(c: char) -> int {
    c as int - '0' as int
}

/// A decimal numeral: one or more digits, nothing else.
pub open spec fn is_decimal_numeral(s: Seq<char>) -> bool {
    s.len() > 0 && forall|i: int| 0 <= i < s.len() ==> is_decimal_digit(s[i])
}

/// The value of a digit string read as a decimal number.
pub open spec fn decimal_value(s: Seq<char>) -> int
    decreases s.len(),
{
    if s.len() == 0 {
        0
    } else {
        decimal_value(s.drop_last()) * 10 + digit_value(s.last())
    }
}

/// A digit string's value is nonnegative.
proof fn lemma_decimal_value_nonneg(s: Seq<char>)
    requires
        forall|i: int| 0 <= i < s.len() ==> is_decimal_digit(s[i]),
    ensures
        decimal_value(s) >= 0,
    decreases s.len(),
{
    if s.len() > 0 {
        lemma_decimal_value_nonneg(s.drop_last());
    }
}

/// Extending a digit string never shrinks its value: the whole numeral is
/// worth at least any of its prefixes.
proof fn lemma_decimal_value_extend(s: Seq<char>, i: int)
    requires
        0 <= i <= s.len(),
        forall|j: int| 0 <= j < s.len() ==> is_decimal_digit(s[j]),
    ensures
        decimal_value(s) >= decimal_value(s.subrange(0, i)),
    decreases s.len() - i,
{
    if i == s.len() {
        assert(s.subrange(0, i) =~= s);
    } else {
        let t = s.drop_last();
        assert forall|j: int| 0 <= j < t.len() implies is_decimal_digit(t[j]) by {
            assert(t[j] == s[j]);
        }
        lemma_decimal_value_extend(t, i);
        assert(t.subrange(0, i) =~= s.subrange(0, i));
        lemma_decimal_value_nonneg(t);
        assert(decimal_value(s) == decimal_value(t) * 10 + digit_value(s.last()));
    }
}

/// The digits of a port numeral: the whole string, or what follows an
/// optional single leading plus sign.
pub open spec fn port_digits(s: Seq<char>) -> Seq<char> {
    if s.len() > 0 && s[0] == '+' {
        s.drop_first()
    } else {
        s
    }
}

/// Parses a decimal port numeral: an optional leading plus sign, then
/// digits. Returns the port exactly when the digits form a decimal numeral
/// whose value fits a 16-bit port number; anything else is the fatal
/// configuration error.
pub fn parse_port(s: &str) -> (r: Result<u16, ConfigError>)
    ensures
        is_decimal_numeral(port_digits(s@)) && decimal_value(port_digits(s@)) <= u16::MAX ==> (
        r matches Ok(p) && p == decimal_value(port_digits(s@))),
        !(is_decimal_numeral(port_digits(s@)) && decimal_value(port_digits(s@)) <= u16::MAX)
            ==> r == Err::<u16, ConfigError>(ConfigError::InvalidPort),
{
    let n = s.unicode_len();
    if n == 0 {
        return Err(ConfigError::InvalidPort);
    }
    let base: usize = if s.get_char(0) == '+' {
        1
    } else {
        0
    };
    proof {
        assert(port_digits(s@) =~= s@.subrange(base as int, n as int));
    }
    if n == base {
        return Err(ConfigError::InvalidPort);
    }
    let mut acc: u32 = 0;
    let mut i: usize = base;
    proof {
        assert(s@.subrange(base as int, base as int) =~= Seq::<char>::empty());
    }
    while i < n
        invariant
            base <= i <= n,
            n == s@.len(),
            port_digits(s@) == s@.subrange(base as int, n as int),
            forall|j: int| base <= j < i ==> is_decimal_digit(s@[j]),
            acc <= u16::MAX,
            acc == decimal_value(s@.subrange(base as int, i as int)),
        decreases n - i,
    {
        let c = s.get_char(i);
        if c < '0' || c > '9' {
            proof {
                assert(port_digits(s@)[i - base] == s@[i as int]);
            }
            return Err(ConfigError::InvalidPort);
        }
        let d: u32 = (c as u32) - 48;
        acc = acc * 10 + d;
        proof {
            assert(s@.subrange(base as int, i + 1).drop_last() =~= s@.subrange(
                base as int,
                i as int,
            ));
            assert(s@.subrange(base as int, i + 1).last() == s@[i as int]);
        }
        if acc > 65535 {
            proof {
                if is_decimal_numeral(port_digits(s@)) {
                    lemma_decimal_value_extend(port_digits(s@), i + 1 - base);
                    assert(port_digits(s@).subrange(0, i + 1 - base) =~= s@.subrange(
                        base as int,
                        i + 1,
                    ));
                }
            }
            return Err(ConfigError::InvalidPort);
        }
        i += 1;
    }
    Ok(acc as u16)
}

/// Resolves the listen port from the raw environment value: the default
/// when none is supplied, the parsed numeral otherwise, and a fatal error
/// for an invalid value.
pub fn listen_port(raw: Option<&String>) -> (r: Result<u16, ConfigError>)
    ensures
        raw is None ==> r == Ok::<u16, ConfigError>(DEFAULT_PORT),
        raw matches Some(s) ==> ({
            &&& is_decimal_numeral(port_digits(s@)) && decimal_value(port_digits(s@)) <= u16::MAX
                ==> (r matches Ok(p) && p == decimal_value(port_digits(s@)))
            &&& !(is_decimal_numeral(port_digits(s@)) && decimal_value(port_digits(s@))
                <= u16::MAX) ==> r == Err::<u16, ConfigError>(ConfigError::InvalidPort)
        }),
{
    match raw {
        Option::Some(s) => parse_port(s.as_str()),
        Option::None => Ok(DEFAULT_PORT),
    }
}

} // verus!
