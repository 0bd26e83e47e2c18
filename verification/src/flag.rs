//! The `name.index` notation for parameters conditional on flags: a flags
//! parameter name, a dot, and the decimal bit index inside that parameter.

use vstd::prelude::*;
use vstd::string::StrSliceExecFns;

verus! {

/// Failure to parse a parameter's type notation.
#[derive(Clone, Copy, Debug, PartialEq, Eq, Structural)]
pub enum ParamParseError {
    InvalidFlag,
}

/// Data attached to parameters conditional on flags.
#[derive(Debug)]
pub struct Flag {
    /// The name of the parameter containing the flags in its bits.
    pub name: String,

    /// The bit index used by this flag inside the flags parameter.
    pub index: usize,
}

/// Whether `c` is a decimal digit.
pub open spec fn is_digit(c: char) -> bool {
    48 <= c as int <= 57
}

/// The value of a decimal digit.
pub open spec fn digit_val(c: char) -> int {
    c as int - 48
}

/// Whether every character of `s` is a decimal digit.
pub open spec fn all_digits(s: Seq<char>) -> bool {
    forall|i: int| 0 <= i < s.len() ==> is_digit(s[i])
}

/// The value of a non-empty decimal digit sequence, most significant first.
pub open spec fn dec_value(s: Seq<char>) -> int
    decreases s.len(),
{
    if s.len() == 0 {
        0
    } else {
        dec_value(s.drop_last()) * 10 + digit_val(s.last())
    }
}

/// The position of the first `.` in `s`, if any.
pub open spec fn find_dot(s: Seq<char>) -> Option<int>
    decreases s.len(),
{
    if s.len() == 0 {
        None
    } else if s.first() == '.' {
        Some(0)
    } else {
        match find_dot(s.drop_first()) {
            Some(j) => Some(j + 1),
            None => None,
        }
    }
}

/// What the flag notation `name.index` denotes: the text before the first
/// dot, and the value of the digits after it. It denotes nothing when there
/// is no dot, when nothing or a non-digit follows the dot, or when the index
/// does not fit the machine's word.
pub open spec fn flag_spec(s: Seq<char>) -> Option<(Seq<char>, int)> {
    match find_dot(s) {
        None => None,
        Some(d) => {
            let digits = s.skip(d + 1);
            if digits.len() > 0 && all_digits(digits) && dec_value(digits) <= usize::MAX {
                Some((s.take(d), dec_value(digits)))
            } else {
                None
            }
        },
    }
}

/// A digit sequence's value is never negative.
proof fn lemma_dec_value_nonneg(s: Seq<char>)
    requires
        all_digits(s),
    ensures
        dec_value(s) >= 0,
    decreases s.len(),
{
    if s.len() > 0 {
        assert(all_digits(s.drop_last())) by {
            assert(forall|i: int|
                0 <= i < s.len() - 1 ==> s.drop_last()[i] == s[i] && is_digit(s[i]));
        }
        lemma_dec_value_nonneg(s.drop_last());
    }
}

/// Extending a digit sequence never shrinks its value.
proof fn lemma_dec_value_monotonic(s: Seq<char>, k: int)
    requires
        all_digits(s),
        0 <= k <= s.len(),
    ensures
        dec_value(s.take(k)) <= dec_value(s),
    decreases s.len() - k,
{
    assert(all_digits(s.take(k))) by {
        assert(forall|i: int| 0 <= i < k ==> s.take(k)[i] == s[i] && is_digit(s[i]));
    }
    if k < s.len() {
        assert(s.take(k + 1).drop_last() =~= s.take(k));
        assert(s.take(k + 1).last() == s[k]);
        lemma_dec_value_nonneg(s.take(k));
        assert(dec_value(s.take(k)) <= dec_value(s.take(k + 1)));
        lemma_dec_value_monotonic(s, k + 1);
    } else {
        assert(s.take(k) =~= s);
    }
}

/// Scanning for the first dot: when no dot stands before position `i`, the
/// search result is the search result from `i` on, shifted by `i`.
proof fn lemma_find_dot_skip(s: Seq<char>, i: int)
    requires
        0 <= i <= s.len(),
        forall|j: int| 0 <= j < i ==> s[j] != '.',
    ensures
        find_dot(s) == match find_dot(s.skip(i)) {
            Some(k) => Some(i + k),
            None => None::<int>,
        },
    decreases i,
{
    if i > 0 {
        assert(s.first() != '.');
        let t = s.drop_first();
        assert(forall|j: int| 0 <= j < i - 1 ==> t[j] == s[j + 1] && s[j + 1] != '.');
        lemma_find_dot_skip(t, i - 1);
        assert(t.skip(i - 1) =~= s.skip(i));
    } else {
        assert(s.skip(0) =~= s);
    }
}

/// Scans for the first dot of the notation.
fn find_dot_exec(ty: &str) -> (r: Option<usize>)
    ensures
        match r {
            Some(d) => find_dot(ty@) == Some(d as int) && d < ty@.len(),
            None => find_dot(ty@) is None,
        },
{
    let n = ty.unicode_len();
    let mut i: usize = 0;
    while i < n
        invariant
            n == ty@.len(),
            i <= n,
            forall|j: int| 0 <= j < i ==> ty@[j] != '.',
        decreases n - i,
    {
        if ty.get_char(i) == '.' {
            proof {
                lemma_find_dot_skip(ty@, i as int);
                assert(ty@.skip(i as int).first() == ty@[i as int]);
            }
            return Some(i);
        }
        i = i + 1;
    }
    proof {
        lemma_find_dot_skip(ty@, n as int);
        assert(ty@.skip(n as int) =~= Seq::<char>::empty());
    }
    None
}

impl Flag {
    /// Parses the flag notation `name.index`: everything before the first
    /// dot is the flags parameter's name, the decimal digits after it the
    /// bit index. Any other shape is rejected.
    pub fn parse(ty: &str) -> (r: Result<Flag, ParamParseError>)
        ensures
            match r {
                Ok(f) => (flag_spec(ty@) matches Some(p) && f.name@ == p.0 && f.index == p.1),
                Err(e) => flag_spec(ty@) is None && e == ParamParseError::InvalidFlag,
            },
    {
        let n = ty.unicode_len();
        let dot: usize = match find_dot_exec(ty) {
            Some(d) => d,
            None => {
                return Err(ParamParseError::InvalidFlag);
            },
        };
        let ghost digits = ty@.skip(dot as int + 1);
        if dot + 1 == n {
            assert(digits.len() == 0);
            return Err(ParamParseError::InvalidFlag);
        }
        let mut index: usize = 0;
        let mut i: usize = dot + 1;
        while i < n
            invariant
                n == ty@.len(),
                dot < n,
                dot + 1 <= i <= n,
                find_dot(ty@) == Some(dot as int),
                digits == ty@.skip(dot as int + 1),
                all_digits(digits.take(i - dot - 1)),
                index == dec_value(digits.take(i - dot - 1)),
            decreases n - i,
        {
            let c = ty.get_char(i);
            let code = c as u32;
            let ghost m = i - dot - 1;
            assert(digits[m as int] == ty@[i as int]);
            assert(digits.take(m + 1).drop_last() =~= digits.take(m as int));
            assert(digits.take(m + 1).last() == digits[m as int]);
            if code < 48 || code > 57 {
                assert(!is_digit(digits[m as int]));
                return Err(ParamParseError::InvalidFlag);
            }
            let d = (code - 48) as usize;
            let scaled = match index.checked_mul(10) {
                Some(v) => v,
                None => {
                    proof {
                        if all_digits(digits) {
                            assert(dec_value(digits.take(m + 1)) > usize::MAX);
                            lemma_dec_value_monotonic(digits, m + 1);
                        }
                    }
                    return Err(ParamParseError::InvalidFlag);
                },
            };
            let next = match scaled.checked_add(d) {
                Some(v) => v,
                None => {
                    proof {
                        if all_digits(digits) {
                            assert(dec_value(digits.take(m + 1)) > usize::MAX);
                            lemma_dec_value_monotonic(digits, m + 1);
                        }
                    }
                    return Err(ParamParseError::InvalidFlag);
                },
            };
            index = next;
            i = i + 1;
        }
        assert(digits.take(n - dot - 1) =~= digits);
        let name_slice = ty.substring_char(0, dot);
        let name = name_slice.to_owned();
        assert(name@ == ty@.take(dot as int)) by {
            assert(ty@.subrange(0, dot as int) =~= ty@.take(dot as int));
        }
        Ok(Flag { name, index })
    }
}

/// The character of one decimal digit value.
pub open spec fn digit_char(d: int) -> char {
    if d == 0 {
        '0'
    } else if d == 1 {
        '1'
    } else if d == 2 {
        '2'
    } else if d == 3 {
        '3'
    } else if d == 4 {
        '4'
    } else if d == 5 {
        '5'
    } else if d == 6 {
        '6'
    } else if d == 7 {
        '7'
    } else if d == 8 {
        '8'
    } else {
        '9'
    }
}

/// The decimal notation of a non-negative number, most significant digit
/// first.
pub open spec fn dec_seq(n: int) -> Seq<char>
    decreases n,
{
    if n <= 9 {
        seq![digit_char(n)]
    } else {
        dec_seq(n / 10).push(digit_char(n % 10))
    }
}

/// The one-character text of one decimal digit value.
fn digit_str(d: usize) -> (r: &'static str)
    requires
        d <= 9,
    ensures
        r@ == seq![digit_char(d as int)],
{
    let r = match d {
        0 => "0",
        1 => "1",
        2 => "2",
        3 => "3",
        4 => "4",
        5 => "5",
        6 => "6",
        7 => "7",
        8 => "8",
        _ => "9",
    };
    proof {
        reveal_strlit("0");
        reveal_strlit("1");
        reveal_strlit("2");
        reveal_strlit("3");
        reveal_strlit("4");
        reveal_strlit("5");
        reveal_strlit("6");
        reveal_strlit("7");
        reveal_strlit("8");
        reveal_strlit("9");
        assert(r@ =~= seq![digit_char(d as int)]);
    }
    r
}

/// Appends the decimal notation of `n`.
fn push_dec(out: &mut String, n: usize)
    ensures
        final(out)@ == old(out)@ + dec_seq(n as int),
    decreases n,
{
    if n <= 9 {
        out.append(digit_str(n));
        assert(out@ =~= old(out)@ + dec_seq(n as int));
    } else {
        assert(n / 10 < n) by (nonlinear_arith)
            requires
                n >= 10,
        ;
        push_dec(out, n / 10);
        out.append(digit_str(n % 10));
        assert(out@ =~= old(out)@ + dec_seq(n as int));
    }
}

impl Flag {
    /// The flag's textual notation, `name.index`.
    pub fn display_string(&self) -> (r: String)
        ensures
            r@ == self.name@ + seq!['.'] + dec_seq(self.index as int),
    {
        let mut out = self.name.clone();
        out.append(".");
        proof {
            reveal_strlit(".");
            assert("."@ =~= seq!['.']);
        }
        push_dec(&mut out, self.index);
        assert(out@ =~= self.name@ + seq!['.'] + dec_seq(self.index as int));
        out
    }
}

impl PartialEq for Flag {
    /// Two flags are equal when they name the same parameter and the same
    /// bit index.
    fn eq(&self, other: &Flag) -> (r: bool) {
        self.name == other.name && self.index == other.index
    }
}

impl vstd::std_specs::cmp::PartialEqSpecImpl for Flag {
    open spec fn obeys_eq_spec() -> bool {
        true
    }

    open spec fn eq_spec(&self, other: &Flag) -> bool {
        self.name@ == other.name@ && self.index == other.index
    }
}

impl core::str::FromStr for Flag {
    type Err = ParamParseError;

    /// Parses a flag, as [`Flag::parse`] does.
    fn from_str(ty: &str) -> Result<Flag, ParamParseError> {
        Flag::parse(ty)
    }
}

} // verus!
