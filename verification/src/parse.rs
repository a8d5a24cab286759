//! Decimal parsing of configuration arguments, and the configuration error
//! taxonomy with its one-line diagnostics.

use vstd::prelude::*;
use vstd::string::{StrSliceExecFns, StringExecFns};

verus! {

/// True for the ten ASCII digit characters.
pub open spec fn is_digit(c: char) -> bool {
    48 <= (c as u32) && (c as u32) <= 57
}

/// The numeric value of one ASCII digit character.
pub open spec fn digit_value(c: char) -> int {
    (c as u32) - 48
}

/// True when every character of `s` is an ASCII digit.
pub open spec fn all_digits(s: Seq<char>) -> bool {
    forall|i: int| 0 <= i < s.len() ==> is_digit(s[i])
}

/// The number that a sequence of ASCII digits denotes in base ten.
pub open spec fn digits_value(s: Seq<char>) -> int
    decreases s.len(),
{
    if s.len() == 0 {
        0
    } else {
        digits_value(s.drop_last()) * 10 + digit_value(s.last())
    }
}

/// What parsing `s` as a nonnegative decimal number bounded by `max`
/// yields: the denoted number, unless `s` is empty, holds a non-digit, or
/// denotes a number above `max`.
pub open spec fn spec_parse_bounded(s: Seq<char>, max: int) -> Option<int> {
    if s.len() > 0 && all_digits(s) && digits_value(s) <= max {
        Some(digits_value(s))
    } else {
        None
    }
}

/// A sequence of digits denotes a nonnegative number.
pub proof fn lemma_digits_value_nonneg(s: Seq<char>)
    requires
        all_digits(s),
    ensures
        digits_value(s) >= 0,
    decreases s.len(),
{
    if s.len() > 0 {
        assert(all_digits(s.drop_last()));
        lemma_digits_value_nonneg(s.drop_last());
    }
}

/// Dropping digits from the end of a digit sequence never increases the
/// denoted number.
pub proof fn lemma_digits_value_prefix_le(s: Seq<char>, i: int)
    requires
        all_digits(s),
        0 <= i <= s.len(),
    ensures
        digits_value(s.subrange(0, i)) <= digits_value(s),
    decreases s.len(),
{
    if i == s.len() {
        assert(s.subrange(0, i) =~= s);
    } else {
        let shorter = s.drop_last();
        assert(all_digits(shorter));
        lemma_digits_value_prefix_le(shorter, i);
        assert(shorter.subrange(0, i) =~= s.subrange(0, i));
        lemma_digits_value_nonneg(shorter);
    }
}

/// Parses `s` as a nonnegative decimal number: the digits' value if `s` is
/// nonempty, all digits, and the value fits a machine word; `None`
/// otherwise.
pub fn parse_usize(s: &str) -> (r: Option<usize>)
    ensures
        ({
            let p = spec_parse_bounded(s@, usize::MAX as int);
            match r {
                Some(v) => p == Some(v as int),
                None => p is None,
            }
        }),
{
    let n = s.unicode_len();
    if n == 0 {
        return None;
    }
    let mut value: usize = 0;
    let mut i: usize = 0;
    while i < n
        invariant
            n == s@.len(),
            i <= n,
            all_digits(s@.subrange(0, i as int)),
            value == digits_value(s@.subrange(0, i as int)),
        decreases n - i,
    {
        let c = s.get_char(i);
        let v = c as u32;
        if v < 48 || v > 57 {
            return None;
        }
        let d = (v - 48) as usize;
        proof {
            let pref2 = s@.subrange(0, i as int + 1);
            assert(pref2.drop_last() =~= s@.subrange(0, i as int));
            assert(pref2.last() == c);
            assert forall|j: int| 0 <= j < pref2.len() implies is_digit(pref2[j]) by {
                if j < i as int {
                    assert(pref2[j] == s@.subrange(0, i as int)[j]);
                }
            }
            assert(digits_value(pref2) == value * 10 + d);
        }
        if value > (usize::MAX - d) / 10 {
            proof {
                let pref2 = s@.subrange(0, i as int + 1);
                assert(value * 10 + d > usize::MAX) by (nonlinear_arith)
                    requires
                        value > (usize::MAX - d) / 10,
                        d <= 9,
                ;
                if all_digits(s@) {
                    lemma_digits_value_prefix_le(s@, i as int + 1);
                }
            }
            return None;
        }
        proof {
            assert(value * 10 + d <= usize::MAX) by (nonlinear_arith)
                requires
                    value <= (usize::MAX - d) / 10,
                    d <= 9,
            ;
        }
        value = value * 10 + d;
        i = i + 1;
    }
    proof {
        assert(s@.subrange(0, n as int) =~= s@);
    }
    Some(value)
}

/// Why a set of configuration arguments was rejected. Each invalid-value
/// variant carries the offending raw argument for display.
#[derive(Clone, Debug)]
pub enum ParseError {
    /// The width argument is not a positive machine-word number.
    InvalidWidth { arg: String },
    /// The height argument is not a positive machine-word number, or the
    /// two dimensions together name more cells than a machine word counts.
    InvalidHeight { arg: String },
    /// The percentage argument is not a number in `[0, 100]`.
    InvalidPercentage { arg: String },
    /// More than three arguments follow the program name.
    TooManyArguments,
    /// Fewer than three arguments follow the program name.
    NotEnoughArguments,
}

impl ParseError {
    /// The one-line diagnostic for this error, naming the parameter that
    /// failed and carrying the offending argument.
    pub open spec fn spec_message(self) -> Seq<char> {
        match self {
            ParseError::InvalidWidth { arg } => "invalid width: "@ + arg@,
            ParseError::InvalidHeight { arg } => "invalid height: "@ + arg@,
            ParseError::InvalidPercentage { arg } => "invalid percentage: "@ + arg@,
            ParseError::TooManyArguments => "too many arguments"@,
            ParseError::NotEnoughArguments => "not enough arguments"@,
        }
    }

    /// Renders the one-line diagnostic.
    pub fn message(&self) -> (r: String)
        ensures
            r@ == self.spec_message(),
    {
        match self {
            ParseError::InvalidWidth { arg } => {
                let mut s = "invalid width: ".to_owned();
                s.append(arg.as_str());
                s
            },
            ParseError::InvalidHeight { arg } => {
                let mut s = "invalid height: ".to_owned();
                s.append(arg.as_str());
                s
            },
            ParseError::InvalidPercentage { arg } => {
                let mut s = "invalid percentage: ".to_owned();
                s.append(arg.as_str());
                s
            },
            ParseError::TooManyArguments => "too many arguments".to_owned(),
            ParseError::NotEnoughArguments => "not enough arguments".to_owned(),
        }
    }
}

} // verus!
