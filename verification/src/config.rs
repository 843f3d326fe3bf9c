//! Process-wide configuration, resolved once at startup from three
//! environment values and then frozen.
//!
//! The endpoint is optional: its absence is not an error, it disables all
//! remote lookups. The debug flag defaults to false and the timeout to 30
//! seconds; a present but unparsable value for either is a startup defect,
//! and construction reports it by returning nothing.
use vstd::prelude::*;
use crate::text::str_eq;
use vstd::string::StrSliceExecFns;

verus! {

/// The three process-wide settings, read once and never mutated.
#[derive(Clone, Debug, PartialEq, Eq)]
pub struct Config {
    /// Base URL of the remote directory service; `None` disables lookups.
    pub endpoint: Option<String>,
    /// How long one request may wait, in seconds.
    pub timeout_secs: u64,
    /// Gates diagnostic output only; never affects control flow.
    pub debug: bool,
}

/// How a boolean setting reads: exactly the words `true` and `false`.
pub open spec fn spec_parse_bool(s: Seq<char>) -> Option<bool> {
    if s == "true"@ {
        Some(true)
    } else if s == "false"@ {
        Some(false)
    } else {
        None
    }
}

/// Parses a boolean setting.
pub fn parse_bool(s: &str) -> (r: Option<bool>)
    ensures
        r == spec_parse_bool(s@),
{
    if str_eq(s, "true") {
        Some(true)
    } else if str_eq(s, "false") {
        Some(false)
    } else {
        None
    }
}

/// A decimal digit.
pub open spec fn is_dec_digit(c: char) -> bool {
    48 <= c as u32 && c as u32 <= 57
}

/// The value of one decimal digit.
pub open spec fn digit_val(c: char) -> int {
    c as u32 - 48
}

/// Whether every character of a text is a decimal digit.
pub open spec fn all_dec_digits(s: Seq<char>) -> bool {
    forall|i: int| 0 <= i < s.len() ==> is_dec_digit(s[i])
}

/// The numeric value of a digit string, most significant digit first.
pub open spec fn dec_val(s: Seq<char>) -> int
    decreases s.len(),
{
    if s.len() == 0 {
        0
    } else {
        dec_val(s.drop_last()) * 10 + digit_val(s.last())
    }
}

/// How an unsigned decimal setting reads: an optional leading plus sign,
/// then at least one digit, with a value that fits `u64`.
pub open spec fn spec_parse_u64(s: Seq<char>) -> Option<u64> {
    let digits = if s.len() > 0 && s[0] == '+' {
        s.subrange(1, s.len() as int)
    } else {
        s
    };
    if digits.len() > 0 && all_dec_digits(digits) && dec_val(digits) <= u64::MAX {
        Some(dec_val(digits) as u64)
    } else {
        None
    }
}

proof fn lemma_dec_val_nonneg(s: Seq<char>)
    requires
        all_dec_digits(s),
    ensures
        dec_val(s) >= 0,
    decreases s.len(),
{
    if s.len() > 0 {
        assert(all_dec_digits(s.drop_last()));
        lemma_dec_val_nonneg(s.drop_last());
    }
}

proof fn lemma_dec_val_prefix_le(s: Seq<char>, i: int)
    requires
        all_dec_digits(s),
        0 <= i <= s.len(),
    ensures
        dec_val(s.subrange(0, i)) <= dec_val(s),
    decreases s.len() - i,
{
    if i < s.len() {
        let pre = s.subrange(0, i);
        let nxt = s.subrange(0, i + 1);
        assert(nxt.drop_last() =~= pre);
        assert(all_dec_digits(pre));
        lemma_dec_val_nonneg(pre);
        assert(dec_val(nxt) == dec_val(pre) * 10 + digit_val(s[i]));
        lemma_dec_val_prefix_le(s, i + 1);
    } else {
        assert(s.subrange(0, i) =~= s);
    }
}

/// Parses an unsigned decimal setting, exactly as `spec_parse_u64` reads it.
pub fn parse_u64(s: &str) -> (r: Option<u64>)
    ensures
        r == spec_parse_u64(s@),
{
    let len = s.unicode_len();
    if len == 0 {
        return None;
    }
    let first = s.get_char(0);
    let start: usize = if first == '+' {
        1
    } else {
        0
    };
    let ghost digits: Seq<char> = if s@[0] == '+' {
        s@.subrange(1, s@.len() as int)
    } else {
        s@
    };
    if start == len {
        return None;
    }
    let mut acc: u64 = 0;
    let mut i: usize = start;
    while i < len
        invariant
            start <= i <= len,
            len == s@.len(),
            0 < len,
            start == (if s@[0] == '+' {
                1int
            } else {
                0int
            }),
            digits == (if s@[0] == '+' {
                s@.subrange(1, s@.len() as int)
            } else {
                s@
            }),
            start < len,
            all_dec_digits(digits.subrange(0, i - start)),
            dec_val(digits.subrange(0, i - start)) == acc as int,
        decreases len - i,
    {
        let c = s.get_char(i);
        let code: u32 = c as u32;
        proof {
            assert(digits[i - start] == s@[i as int]);
        }
        if code < 48 || code > 57 {
            proof {
                assert(!is_dec_digit(digits[i - start]));
                assert(!all_dec_digits(digits));
            }
            return None;
        }
        let d: u64 = (code - 48) as u64;
        let ghost pre = digits.subrange(0, i - start);
        let ghost nxt = digits.subrange(0, i - start + 1);
        proof {
            assert(nxt.drop_last() =~= pre);
            assert(nxt.last() == digits[i - start]);
            assert(dec_val(nxt) == acc as int * 10 + d as int);
        }
        let scaled = match acc.checked_mul(10) {
            Some(x) => x.checked_add(d),
            None => None,
        };
        acc = match scaled {
            Some(x) => x,
            None => {
                proof {
                    assert(dec_val(nxt) > u64::MAX);
                    if all_dec_digits(digits) {
                        lemma_dec_val_prefix_le(digits, i - start + 1);
                        assert(dec_val(digits) > u64::MAX);
                    }
                }
                return None;
            },
        };
        proof {
            assert(all_dec_digits(nxt));
        }
        i = i + 1;
    }
    proof {
        assert(digits.subrange(0, i - start) =~= digits);
    }
    Some(acc)
}

/// The view of an optional setting text.
pub open spec fn opt_text_view(s: Option<String>) -> Option<Seq<char>> {
    match s {
        None => None,
        Some(x) => Some(x@),
    }
}

/// The debug flag an environment value yields: absent means off.
pub open spec fn spec_debug_value(raw: Option<Seq<char>>) -> Option<bool> {
    match raw {
        None => Some(false),
        Some(s) => spec_parse_bool(s),
    }
}

/// The timeout an environment value yields: absent means 30 seconds.
pub open spec fn spec_timeout_value(raw: Option<Seq<char>>) -> Option<u64> {
    match raw {
        None => Some(30),
        Some(s) => spec_parse_u64(s),
    }
}

/// Builds the configuration from the raw environment values, resolving
/// defaults. Returns nothing exactly when a present debug or timeout value
/// does not parse: that is a startup defect, not a runtime outcome.
pub fn config_from_env_values(
    endpoint: Option<String>,
    debug_raw: Option<String>,
    timeout_raw: Option<String>,
) -> (r: Option<Config>)
    ensures
        r is Some <==> spec_debug_value(opt_text_view(debug_raw)) is Some && spec_timeout_value(
            opt_text_view(timeout_raw),
        ) is Some,
        r matches Some(c) ==> c.endpoint == endpoint && Some(c.debug) == spec_debug_value(
            opt_text_view(debug_raw),
        ) && Some(c.timeout_secs) == spec_timeout_value(opt_text_view(timeout_raw)),
{
    let debug: bool = match &debug_raw {
        None => false,
        Some(d) => match parse_bool(d.as_str()) {
            Some(b) => b,
            None => {
                return None;
            },
        },
    };
    let timeout_secs: u64 = match &timeout_raw {
        None => 30,
        Some(t) => match parse_u64(t.as_str()) {
            Some(n) => n,
            None => {
                return None;
            },
        },
    };
    Some(Config { endpoint, timeout_secs, debug })
}

} // verus!
