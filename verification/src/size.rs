//! The size asked of a favicon, and the text form it is parsed from.
//!
//! The text is `small`, `medium`, `large`, `default`, or a width and a height
//! in decimal with one comma between them. Any other text is the size
//! `Invalid`, which every consumer has to refuse.

use vstd::prelude::*;

use crate::text::{chars_of, same_chars};

verus! {

/// The size of the image to be produced.
///
/// `Small` is 16 by 16, `Medium` 32 by 32 and `Large` 64 by 64 pixels.
/// `Custom` gives width and height. `Default` keeps the image as it is.
/// `Invalid` stands for a text that names no size.
#[derive(Debug, Clone, Copy, PartialEq, Eq, Structural, PartialOrd, Ord)]
pub enum ImageSize {
    Small,
    Medium,
    Large,
    Custom(u32, u32),
    Default,
    Invalid,
}

/// `c` is one of the decimal digits `0` to `9`.
pub open spec fn is_digit(c: char) -> bool {
    '0' <= c <= '9'
}

/// The number that the decimal digit `c` stands for.
pub open spec fn digit_value(c: char) -> nat
    recommends
        is_digit(c),
{
    (c as u32 - '0' as u32) as nat
}

/// Every character of `text` is a decimal digit.
pub open spec fn all_digits(text: Seq<char>) -> bool {
    forall|i: int| 0 <= i < text.len() ==> is_digit(#[trigger] text[i])
}

/// The number that the decimal digits `digits` stand for; leading zeros count
/// for nothing.
pub open spec fn decimal_value(digits: Seq<char>) -> nat
    recommends
        all_digits(digits),
    decreases digits.len(),
{
    if digits.len() == 0 {
        0
    } else {
        decimal_value(digits.drop_last()) * 10 + digit_value(digits.last())
    }
}

/// The digits of a dimension text: the text without a leading `+`.
pub open spec fn unsigned_part(text: Seq<char>) -> Seq<char> {
    if text.len() > 0 && text[0] == '+' {
        text.drop_first()
    } else {
        text
    }
}

/// The dimension that `text` stands for: one or more decimal digits, with at
/// most one `+` in front, whose value fits in 32 bits.
pub open spec fn parse_dimension(text: Seq<char>) -> Option<u32> {
    let digits = unsigned_part(text);
    if digits.len() > 0 && all_digits(digits) && decimal_value(digits) <= u32::MAX {
        Some(decimal_value(digits) as u32)
    } else {
        None
    }
}

/// The first comma of `text` stands at position `at`.
pub open spec fn first_comma_at(text: Seq<char>, at: int) -> bool {
    &&& 0 <= at < text.len()
    &&& text[at] == ','
    &&& forall|k: int| 0 <= k < at ==> text[k] != ','
}

/// The size that a text with a comma stands for: the dimension before its
/// first comma by the dimension after it, where both are dimensions.
pub open spec fn custom_size(text: Seq<char>) -> ImageSize {
    if exists|at: int| first_comma_at(text, at) {
        let at = choose|at: int| first_comma_at(text, at);
        match (parse_dimension(text.take(at)), parse_dimension(text.skip(at + 1))) {
            (Some(width), Some(height)) => ImageSize::Custom(width, height),
            _ => ImageSize::Invalid,
        }
    } else {
        ImageSize::Invalid
    }
}

/// The size that `text` stands for.
pub open spec fn parse_size(text: Seq<char>) -> ImageSize {
    if text == "small"@ {
        ImageSize::Small
    } else if text == "medium"@ {
        ImageSize::Medium
    } else if text == "large"@ {
        ImageSize::Large
    } else if text == "default"@ {
        ImageSize::Default
    } else {
        custom_size(text)
    }
}

/// The value of the digits grows with every digit that is added.
pub proof fn lemma_decimal_value_grows(digits: Seq<char>, n: int)
    requires
        0 <= n <= digits.len(),
    ensures
        decimal_value(digits.take(n)) <= decimal_value(digits),
    decreases digits.len(),
{
    if n == digits.len() {
        assert(digits.take(n) =~= digits);
    } else {
        assert(digits.take(n) =~= digits.drop_last().take(n));
        lemma_decimal_value_grows(digits.drop_last(), n);
    }
}

/// Reads the dimension that the characters of `text` from `from` up to `to`
/// stand for.
pub fn dimension_between(text: &Vec<char>, from: usize, to: usize) -> (dimension: Option<u32>)
    requires
        from <= to <= text.len(),
    ensures
        dimension == parse_dimension(text@.subrange(from as int, to as int)),
{
    let ghost part = text@.subrange(from as int, to as int);
    let start: usize = if from < to && text[from] == '+' {
        from + 1
    } else {
        from
    };
    let ghost digits = unsigned_part(part);
    assert(digits =~= text@.subrange(start as int, to as int));
    if start == to {
        return None;
    }
    let mut value: u64 = 0;
    let mut i: usize = start;
    while i < to
        invariant
            from <= start <= i <= to <= text.len(),
            digits == text@.subrange(start as int, to as int),
            digits == unsigned_part(text@.subrange(from as int, to as int)),
            all_digits(digits.take(i - start)),
            value == decimal_value(digits.take(i - start)),
            value <= u32::MAX,
        decreases to - i,
    {
        let c = text[i];
        let ghost seen = digits.take(i - start);
        let ghost next = digits.take(i + 1 - start);
        assert(next.drop_last() =~= seen);
        assert(next.last() == c);
        if c < '0' || c > '9' {
            assert(!is_digit(digits[i - start]));
            return None;
        }
        let digit: u64 = (c as u32 - '0' as u32) as u64;
        let grown: u64 = value * 10 + digit;
        assert(grown == decimal_value(next));
        if grown > u32::MAX as u64 {
            proof {
                lemma_decimal_value_grows(digits, i + 1 - start);
            }
            return None;
        }
        assert forall|j: int| 0 <= j < next.len() implies is_digit(#[trigger] next[j]) by {
            if j < seen.len() {
                assert(seen[j] == next[j]);
            }
        }
        value = grown;
        i += 1;
    }
    assert(digits.take(to - start) =~= digits);
    Some(value as u32)
}

/// Finds the first comma of `text`.
pub fn find_comma(text: &Vec<char>) -> (found: Option<usize>)
    ensures
        match found {
            Some(at) => first_comma_at(text@, at as int),
            None => forall|k: int| 0 <= k < text.len() ==> text@[k] != ',',
        },
{
    let mut at: usize = 0;
    while at < text.len()
        invariant
            at <= text.len(),
            forall|k: int| 0 <= k < at ==> text@[k] != ',',
        decreases text.len() - at,
    {
        if text[at] == ',' {
            return Some(at);
        }
        at += 1;
    }
    None
}

impl ImageSize {
    /// The width and height that this size asks for; `None` for `Default`
    /// and `Invalid`, which ask for none.
    pub open spec fn spec_dimensions(self) -> Option<(u32, u32)> {
        match self {
            ImageSize::Small => Some((16u32, 16u32)),
            ImageSize::Medium => Some((32u32, 32u32)),
            ImageSize::Large => Some((64u32, 64u32)),
            ImageSize::Custom(width, height) => Some((width, height)),
            ImageSize::Default => None,
            ImageSize::Invalid => None,
        }
    }

    /// The width and height that this size asks for.
    #[verifier::when_used_as_spec(spec_dimensions)]
    pub fn dimensions(self) -> (dimensions: Option<(u32, u32)>)
        ensures
            dimensions == self.spec_dimensions(),
    {
        match self {
            ImageSize::Small => Some((16, 16)),
            ImageSize::Medium => Some((32, 32)),
            ImageSize::Large => Some((64, 64)),
            ImageSize::Custom(width, height) => Some((width, height)),
            ImageSize::Default => None,
            ImageSize::Invalid => None,
        }
    }

    /// Reads a size from its text form. A text that names no size gives
    /// `Invalid`.
    pub fn parse(text: &str) -> (size: ImageSize)
        ensures
            size == parse_size(text@),
    {
        let chars = chars_of(text);
        if same_chars(&chars, &chars_of("small")) {
            ImageSize::Small
        } else if same_chars(&chars, &chars_of("medium")) {
            ImageSize::Medium
        } else if same_chars(&chars, &chars_of("large")) {
            ImageSize::Large
        } else if same_chars(&chars, &chars_of("default")) {
            ImageSize::Default
        } else {
            match find_comma(&chars) {
                Some(at) => {
                    assert forall|other: int| first_comma_at(chars@, other) implies other
                        == at by {
                        if other < at {
                            assert(chars@[other] != ',');
                        }
                    }
                    assert(chars@.take(at as int) =~= chars@.subrange(0, at as int));
                    assert(chars@.skip(at + 1) =~= chars@.subrange(at + 1, chars.len() as int));
                    let width = dimension_between(&chars, 0, at);
                    let height = dimension_between(&chars, at + 1, chars.len());
                    match (width, height) {
                        (Some(width), Some(height)) => ImageSize::Custom(width, height),
                        _ => ImageSize::Invalid,
                    }
                },
                None => ImageSize::Invalid,
            }
        }
    }
}

impl<'a> From<&'a str> for ImageSize {
    fn from(text: &'a str) -> (size: ImageSize) {
        ImageSize::parse(text)
    }
}

impl<'a> vstd::std_specs::convert::FromSpecImpl<&'a str> for ImageSize {
    open spec fn obeys_from_spec() -> bool {
        true
    }

    open spec fn from_spec(text: &'a str) -> ImageSize {
        parse_size(text@)
    }
}

} // verus!
