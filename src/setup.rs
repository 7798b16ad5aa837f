use vstd::prelude::*;

use crate::grid::MAX_DIMENSION;

verus! {

/// Whether `c` is one of the ASCII digits `0` to `9`.
pub open spec fn is_digit(c: char) -> bool {
    '0' <= c <= '9'
}

/// The value of a digit character.
pub open spec fn digit_value(c: char) -> int {
    (c as u32) - ('0' as u32)
}

/// The value of a sequence of decimal digits, most significant first.
pub open spec fn decimal_value(s: Seq<char>) -> int
    decreases s.len(),
{
    if s.len() == 0 {
        0
    } else {
        decimal_value(s.drop_last()) * 10 + digit_value(s.last())
    }
}

/// The digits of an unsigned number: the text without a leading `+`.
pub open spec fn unsigned_digits(s: Seq<char>) -> Seq<char> {
    if s.len() > 0 && s[0] == '+' {
        s.skip(1)
    } else {
        s
    }
}

/// The whole number that `s` spells as a `u32` does in Rust: an optional `+`,
/// then one or more decimal digits, with a value that fits in a `u32`.
/// `None` for anything else.
pub open spec fn whole_number(s: Seq<char>) -> Option<int> {
    let d = unsigned_digits(s);
    if d.len() > 0 && (forall|i: int| 0 <= i < d.len() ==> is_digit(#[trigger] d[i]))
        && decimal_value(d) <= u32::MAX {
        Some(decimal_value(d))
    } else {
        None
    }
}

proof fn lemma_decimal_push(s: Seq<char>, c: char)
    ensures
        decimal_value(s.push(c)) == decimal_value(s) * 10 + digit_value(c),
{
    assert(s.push(c).drop_last() =~= s);
}

proof fn lemma_decimal_nonneg(s: Seq<char>)
    requires
        forall|i: int| 0 <= i < s.len() ==> is_digit(#[trigger] s[i]),
    ensures
        decimal_value(s) >= 0,
    decreases s.len(),
{
    if s.len() > 0 {
        lemma_decimal_nonneg(s.drop_last());
    }
}

/// Reads `s` as a whole number in the way Rust parses a `u32`; `None` where
/// it is not one or does not fit.
pub fn parse_whole_number(s: &str) -> (r: Option<u32>)
    ensures
        match r {
            Some(v) => whole_number(s@) == Some(v as int),
            None => whole_number(s@) is None,
        },
{
    let n = s.unicode_len();
    let start: usize = if n > 0 && s.get_char(0) == '+' {
        1
    } else {
        0
    };
    let ghost d = unsigned_digits(s@);
    assert(d =~= s@.skip(start as int));
    if start >= n {
        return None;
    }
    let mut value: u64 = 0;
    let mut overflow = false;
    let mut i: usize = start;
    while i < n
        invariant
            n == s@.len(),
            d == s@.skip(start as int),
            d == unsigned_digits(s@),
            start <= i <= n,
            forall|j: int| 0 <= j < i - start ==> is_digit(#[trigger] d[j]),
            !overflow ==> value == decimal_value(d.take(i - start)),
            !overflow ==> value <= u32::MAX,
            overflow ==> decimal_value(d.take(i - start)) > u32::MAX,
        decreases n - i,
    {
        let c = s.get_char(i);
        if !('0' <= c && c <= '9') {
            assert(!is_digit(d[i - start]));
            return None;
        }
        proof {
            assert(d.take(i + 1 - start) =~= d.take(i - start).push(c));
            lemma_decimal_push(d.take(i - start), c);
            lemma_decimal_nonneg(d.take(i - start));
        }
        if !overflow {
            value = value * 10 + ((c as u32) - ('0' as u32)) as u64;
            if value > u32::MAX as u64 {
                overflow = true;
            }
        }
        i += 1;
    }
    assert(d.take(n - start) =~= d);
    if overflow {
        None
    } else {
        Some(value as u32)
    }
}

/// Why a pair of texts does not give the dimensions of a grid.
#[derive(Clone, Copy, Debug, PartialEq, Eq, Structural)]
pub enum DimensionError {
    WidthNotWhole,
    WidthZero,
    WidthTooLarge,
    HeightNotWhole,
    HeightZero,
    HeightTooLarge,
}

impl DimensionError {
    /// The text shown to the user for each error.
    pub open spec fn spec_message(&self) -> Seq<char> {
        match self {
            DimensionError::WidthNotWhole => "failed to parse width as whole number"@,
            DimensionError::WidthZero => "width must be greater than 0"@,
            DimensionError::WidthTooLarge => "width exceeds the maximum of 8192"@,
            DimensionError::HeightNotWhole => "failed to parse height as whole number"@,
            DimensionError::HeightZero => "height must be greater than 0"@,
            DimensionError::HeightTooLarge => "height exceeds the maximum of 8192"@,
        }
    }

    pub fn message(&self) -> (r: &'static str)
        ensures
            r@ == self.spec_message(),
    {
        match self {
            DimensionError::WidthNotWhole => "failed to parse width as whole number",
            DimensionError::WidthZero => "width must be greater than 0",
            DimensionError::WidthTooLarge => "width exceeds the maximum of 8192",
            DimensionError::HeightNotWhole => "failed to parse height as whole number",
            DimensionError::HeightZero => "height must be greater than 0",
            DimensionError::HeightTooLarge => "height exceeds the maximum of 8192",
        }
    }
}

/// Checks one dimension: a whole number from 1 to `MAX_DIMENSION`, or the
/// error among `not_whole`, `zero` and `too_large` that says why not.
pub open spec fn checked_dimension(
    s: Seq<char>,
    not_whole: DimensionError,
    zero: DimensionError,
    too_large: DimensionError,
) -> Result<u32, DimensionError> {
    match whole_number(s) {
        None => Err(not_whole),
        Some(v) => if v == 0 {
            Err(zero)
        } else if v > MAX_DIMENSION {
            Err(too_large)
        } else {
            Ok(v as u32)
        },
    }
}

/// The dimensions that the texts `sizex` and `sizey` give, or the first
/// error, the width's before the height's.
pub open spec fn checked_dimensions(sizex: Seq<char>, sizey: Seq<char>) -> Result<
    (u32, u32),
    DimensionError,
> {
    match checked_dimension(
        sizex,
        DimensionError::WidthNotWhole,
        DimensionError::WidthZero,
        DimensionError::WidthTooLarge,
    ) {
        Err(e) => Err(e),
        Ok(w) => match checked_dimension(
            sizey,
            DimensionError::HeightNotWhole,
            DimensionError::HeightZero,
            DimensionError::HeightTooLarge,
        ) {
            Err(e) => Err(e),
            Ok(h) => Ok((w, h)),
        },
    }
}

fn check_dimension(
    s: &str,
    not_whole: DimensionError,
    zero: DimensionError,
    too_large: DimensionError,
) -> (r: Result<u32, DimensionError>)
    ensures
        r == checked_dimension(s@, not_whole, zero, too_large),
{
    match parse_whole_number(s) {
        None => Err(not_whole),
        Some(v) => if v == 0 {
            Err(zero)
        } else if v > MAX_DIMENSION {
            Err(too_large)
        } else {
            Ok(v)
        },
    }
}

/// Reads the width and height of a grid from the texts entered for them.
/// Each must be a whole number from 1 to `MAX_DIMENSION`.
pub fn parse_dimensions(sizex: &str, sizey: &str) -> (r: Result<(u32, u32), DimensionError>)
    ensures
        r == checked_dimensions(sizex@, sizey@),
{
    let width = match check_dimension(
        sizex,
        DimensionError::WidthNotWhole,
        DimensionError::WidthZero,
        DimensionError::WidthTooLarge,
    ) {
        Ok(w) => w,
        Err(e) => return Err(e),
    };
    let height = match check_dimension(
        sizey,
        DimensionError::HeightNotWhole,
        DimensionError::HeightZero,
        DimensionError::HeightTooLarge,
    ) {
        Ok(h) => h,
        Err(e) => return Err(e),
    };
    Ok((width, height))
}

} // verus!
