//! Process-wide execution defaults, read once at startup and immutable
//! afterward. Malformed settings fail fast with a [`ConfigError`] rather
//! than falling back silently: they are operator misconfiguration, not
//! runtime request errors.

use vstd::prelude::*;

verus! {

/// Process-wide defaults for the four governed resources. `None` means
/// the operator configured nothing and the built-in fallback applies at
/// resolution time (see `limits`).
///
/// `query_timeout` is a relative duration in the same time unit as the
/// `now` argument handed to the orchestrator (the host picks the unit).
#[derive(Debug, Clone, PartialEq, Eq)]
pub struct Config {
    pub query_timeout: Option<u64>,
    pub max_complexity: Option<u64>,
    pub max_depth: Option<u8>,
    pub max_first: Option<u32>,
}

/// Which startup setting was malformed. Fatal: the process should not
/// start with a configuration it cannot read.
#[derive(Debug, Clone, Copy, PartialEq, Eq, Structural)]
pub enum ConfigError {
    InvalidQueryTimeout,
    InvalidMaxComplexity,
    InvalidMaxDepth,
    InvalidMaxFirst,
}

/// An ASCII decimal digit.
pub open spec fn is_ascii_digit(b: u8) -> bool {
    48 <= b && b <= 57
}

/// Value of a sequence of ASCII digits, most significant first.
pub open spec fn digits_value(s: Seq<u8>) -> int
    decreases s.len(),
{
    if s.len() == 0 {
        0
    } else {
        digits_value(s.drop_last()) * 10 + (s.last() - 48)
    }
}

/// The digit run of a setting: everything after an optional leading `+`.
pub open spec fn digits_of(s: Seq<u8>) -> Seq<u8> {
    if s.len() > 0 && s[0] == 43 {
        s.skip(1)
    } else {
        s
    }
}

/// A well-formed unsigned decimal setting: an optional leading `+`
/// followed by at least one ASCII digit and nothing else.
pub open spec fn is_decimal(s: Seq<u8>) -> bool {
    &&& digits_of(s).len() > 0
    &&& forall|i: int| 0 <= i < digits_of(s).len() ==> is_ascii_digit(#[trigger] digits_of(s)[i])
}

/// Numeric value of a well-formed decimal setting.
pub open spec fn decimal_value(s: Seq<u8>) -> int {
    digits_value(digits_of(s))
}

/// A run of ASCII digits has a non-negative value.
proof fn lemma_digits_value_nonneg(s: Seq<u8>)
    requires
        forall|i: int| 0 <= i < s.len() ==> is_ascii_digit(#[trigger] s[i]),
    ensures
        digits_value(s) >= 0,
    decreases s.len(),
{
    if s.len() > 0 {
        lemma_digits_value_nonneg(s.drop_last());
    }
}

/// A digit run's value never shrinks as more digits are read.
proof fn lemma_digits_value_prefix(s: Seq<u8>, k: int)
    requires
        0 <= k <= s.len(),
        forall|i: int| 0 <= i < s.len() ==> is_ascii_digit(#[trigger] s[i]),
    ensures
        digits_value(s.subrange(0, k)) <= digits_value(s),
    decreases s.len() - k,
{
    if k < s.len() {
        let t = s.subrange(0, k + 1);
        assert(t.drop_last() =~= s.subrange(0, k));
        assert(forall|i: int|
            0 <= i < t.len() ==> is_ascii_digit(#[trigger] t[i]) && t[i] == s[i]);
        lemma_digits_value_nonneg(t.drop_last());
        assert(digits_value(t) >= digits_value(t.drop_last()));
        lemma_digits_value_prefix(s, k + 1);
    } else {
        assert(s.subrange(0, k) =~= s);
    }
}

/// Parses an unsigned decimal setting. Returns the value exactly when the
/// bytes form a well-formed decimal whose value fits in a `u64`.
pub fn parse_u64(s: &[u8]) -> (r: Option<u64>)
    ensures
        r is Some <==> is_decimal(s@) && decimal_value(s@) <= u64::MAX,
        r matches Some(v) ==> v == decimal_value(s@),
{
    let n = s.len();
    let start: usize = if n > 0 && s[0] == 43u8 {
        1
    } else {
        0
    };
    proof {
        if start == 1 {
            assert(digits_of(s@) =~= s@.skip(1));
        } else {
            assert(digits_of(s@) =~= s@);
        }
    }
    if start >= n {
        return None;
    }
    let ghost d = digits_of(s@);
    let mut acc: u64 = 0;
    let mut i: usize = start;
    while i < n
        invariant
            start <= i <= n,
            n == s@.len(),
            d == digits_of(s@),
            d =~= s@.subrange(start as int, n as int),
            forall|j: int| start <= j < i ==> is_ascii_digit(#[trigger] s@[j]),
            acc == digits_value(s@.subrange(start as int, i as int)),
        decreases n - i,
    {
        let b = s[i];
        if b < 48u8 || b > 57u8 {
            proof {
                assert(d[i - start] == s@[i as int]);
                assert(!is_ascii_digit(d[i - start]));
            }
            return None;
        }
        let acc10 = match acc.checked_mul(10) {
            Some(x) => x,
            None => {
                proof {
                    overflow_refutes(s@, d, start as int, i as int, acc, b);
                }
                return None;
            },
        };
        let acc2 = match acc10.checked_add((b - 48u8) as u64) {
            Some(x) => x,
            None => {
                proof {
                    overflow_refutes(s@, d, start as int, i as int, acc, b);
                }
                return None;
            },
        };
        proof {
            let pre = s@.subrange(start as int, i as int);
            let post = s@.subrange(start as int, i + 1);
            assert(post.drop_last() =~= pre);
        }
        acc = acc2;
        i = i + 1;
    }
    proof {
        assert(s@.subrange(start as int, n as int) =~= d);
    }
    Some(acc)
}

/// If extending the scanned digit run by one more digit already exceeds
/// `u64::MAX`, the whole setting's value does too (or it is malformed).
proof fn overflow_refutes(s: Seq<u8>, d: Seq<u8>, start: int, i: int, acc: u64, b: u8)
    requires
        0 <= start <= i < s.len(),
        d == digits_of(s),
        d =~= s.subrange(start, s.len() as int),
        is_ascii_digit(b),
        b == s[i],
        acc == digits_value(s.subrange(start, i)),
        acc * 10 + (b - 48) > u64::MAX,
    ensures
        !(is_decimal(s) && decimal_value(s) <= u64::MAX),
{
    if is_decimal(s) {
        let post = s.subrange(start, i + 1);
        assert(post.drop_last() =~= s.subrange(start, i));
        assert(digits_value(post) == acc * 10 + (b - 48));
        assert(post =~= d.subrange(0, i + 1 - start));
        lemma_digits_value_prefix(d, i + 1 - start);
        assert(decimal_value(s) >= digits_value(post));
    }
}

/// Parses a decimal setting that must fit in a `u8`.
pub fn parse_u8(s: &[u8]) -> (r: Option<u8>)
    ensures
        r is Some <==> is_decimal(s@) && decimal_value(s@) <= u8::MAX,
        r matches Some(v) ==> v == decimal_value(s@),
{
    match parse_u64(s) {
        Some(v) => {
            if v <= u8::MAX as u64 {
                Some(v as u8)
            } else {
                None
            }
        },
        None => None,
    }
}

/// Parses a decimal setting that must fit in a `u32`.
pub fn parse_u32(s: &[u8]) -> (r: Option<u32>)
    ensures
        r is Some <==> is_decimal(s@) && decimal_value(s@) <= u32::MAX,
        r matches Some(v) ==> v == decimal_value(s@),
{
    match parse_u64(s) {
        Some(v) => {
            if v <= u32::MAX as u64 {
                Some(v as u32)
            } else {
                None
            }
        },
        None => None,
    }
}

/// A raw setting parses as a value of the right width.
pub open spec fn setting_ok(raw: Option<Seq<u8>>, max: nat) -> bool {
    raw matches Some(s) ==> is_decimal(s) && decimal_value(s) <= max
}

/// The parsed value of a present, well-formed setting.
pub open spec fn setting_value(raw: Option<Seq<u8>>) -> Option<int> {
    match raw {
        Some(s) => Some(decimal_value(s)),
        None => None,
    }
}

/// View of an optional raw setting as an optional byte sequence.
pub open spec fn raw_view(raw: Option<&[u8]>) -> Option<Seq<u8>> {
    match raw {
        Some(s) => Some(s@),
        None => None,
    }
}

impl Config {
    /// Builds the process configuration from the raw startup settings
    /// (absent means unset). Fails fast, naming the first malformed or
    /// out-of-range setting in the order timeout, complexity, depth,
    /// page size; succeeds exactly when every present setting is a
    /// well-formed decimal in range.
    pub fn from_settings(
        query_timeout: Option<&[u8]>,
        max_complexity: Option<&[u8]>,
        max_depth: Option<&[u8]>,
        max_first: Option<&[u8]>,
    ) -> (r: Result<Config, ConfigError>)
        ensures
            r is Ok <==> {
                &&& setting_ok(raw_view(query_timeout), u64::MAX as nat)
                &&& setting_ok(raw_view(max_complexity), u64::MAX as nat)
                &&& setting_ok(raw_view(max_depth), u8::MAX as nat)
                &&& setting_ok(raw_view(max_first), u32::MAX as nat)
            },
            r matches Ok(c) ==> {
                &&& c.query_timeout matches Some(v) ==> Some(v as int) == setting_value(
                    raw_view(query_timeout),
                )
                &&& c.query_timeout is Some <==> query_timeout is Some
                &&& c.max_complexity matches Some(v) ==> Some(v as int) == setting_value(
                    raw_view(max_complexity),
                )
                &&& c.max_complexity is Some <==> max_complexity is Some
                &&& c.max_depth matches Some(v) ==> Some(v as int) == setting_value(
                    raw_view(max_depth),
                )
                &&& c.max_depth is Some <==> max_depth is Some
                &&& c.max_first matches Some(v) ==> Some(v as int) == setting_value(
                    raw_view(max_first),
                )
                &&& c.max_first is Some <==> max_first is Some
            },
            r matches Err(e) ==> {
                let timeout_ok = setting_ok(raw_view(query_timeout), u64::MAX as nat);
                let complexity_ok = setting_ok(raw_view(max_complexity), u64::MAX as nat);
                let depth_ok = setting_ok(raw_view(max_depth), u8::MAX as nat);
                let first_ok = setting_ok(raw_view(max_first), u32::MAX as nat);
                &&& e == ConfigError::InvalidQueryTimeout <==> !timeout_ok
                &&& e == ConfigError::InvalidMaxComplexity <==> timeout_ok && !complexity_ok
                &&& e == ConfigError::InvalidMaxDepth <==> timeout_ok && complexity_ok && !depth_ok
                &&& e == ConfigError::InvalidMaxFirst <==> timeout_ok && complexity_ok && depth_ok
                    && !first_ok
            },
    {
        let query_timeout = match query_timeout {
            Some(s) => match parse_u64(s) {
                Some(v) => Some(v),
                None => {
                    return Err(ConfigError::InvalidQueryTimeout);
                },
            },
            None => None,
        };
        let max_complexity = match max_complexity {
            Some(s) => match parse_u64(s) {
                Some(v) => Some(v),
                None => {
                    return Err(ConfigError::InvalidMaxComplexity);
                },
            },
            None => None,
        };
        let max_depth = match max_depth {
            Some(s) => match parse_u8(s) {
                Some(v) => Some(v),
                None => {
                    return Err(ConfigError::InvalidMaxDepth);
                },
            },
            None => None,
        };
        let max_first = match max_first {
            Some(s) => match parse_u32(s) {
                Some(v) => Some(v),
                None => {
                    return Err(ConfigError::InvalidMaxFirst);
                },
            },
            None => None,
        };
        Ok(Config { query_timeout, max_complexity, max_depth, max_first })
    }

    /// A configuration with nothing set: every resource falls back to
    /// its built-in default at resolution time.
    pub fn unset() -> (r: Config)
        ensures
            r.query_timeout is None,
            r.max_complexity is None,
            r.max_depth is None,
            r.max_first is None,
    {
        Config { query_timeout: None, max_complexity: None, max_depth: None, max_first: None }
    }
}

} // verus!
