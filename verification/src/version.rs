//! Version numbers: dotted lists such as `9.0.100`.
use vstd::prelude::*;

use crate::roslyn::RoslynOfficial;
use crate::text::{
    chars_of, find, lemma_split_at_separator, lemma_split_is_not_empty,
    lemma_split_without_separator, split, split_text,
};

verus! {

pub open spec fn is_digit(c: char) -> bool {
    '0' <= c <= '9'
}

pub open spec fn all_digits(text: Seq<char>) -> bool {
    forall|i: int| 0 <= i < text.len() ==> is_digit(#[trigger] text[i])
}

/// What a character counts for as a decimal digit.
pub open spec fn digit_value(c: char) -> nat {
    if is_digit(c) {
        (c as int - '0' as int) as nat
    } else {
        0
    }
}

/// The number that a row of decimal digits stands for.
pub open spec fn decimal(digits: Seq<char>) -> nat
    decreases digits.len(),
{
    if digits.len() == 0 {
        0
    } else {
        decimal(digits.drop_last()) * 10 + digit_value(digits.last())
    }
}

/// `text` without the plus sign that it may start with.
pub open spec fn without_plus(text: Seq<char>) -> Seq<char> {
    if text.len() > 0 && text[0] == '+' {
        text.skip(1)
    } else {
        text
    }
}

/// The 32-bit number that `text` writes in decimal digits, with or without a plus sign.
pub open spec fn number(text: Seq<char>) -> Option<u32> {
    let digits = without_plus(text);
    if digits.len() > 0 && all_digits(digits) && decimal(digits) <= u32::MAX {
        Some(decimal(digits) as u32)
    } else {
        None
    }
}

/// The version that `text` writes: numbers with dots between them.
pub open spec fn version_of(text: Seq<char>) -> Option<Seq<u32>> {
    let parts = split(text, '.');
    if forall|i: int| 0 <= i < parts.len() ==> number(#[trigger] parts[i]) is Some {
        Some(parts.map_values(|part: Seq<char>| number(part)->0))
    } else {
        None
    }
}

/// Whether version `a` comes before version `b`: the first numbers in which they differ decide,
/// and where one begins with the other, the shorter comes first.
pub open spec fn version_before(a: Seq<u32>, b: Seq<u32>) -> bool
    decreases a.len(),
{
    if b.len() == 0 {
        false
    } else if a.len() == 0 {
        true
    } else if a[0] != b[0] {
        a[0] < b[0]
    } else {
        version_before(a.skip(1), b.skip(1))
    }
}

/// What `version` holds before its second dot.
pub open spec fn first_two_parts(version: Seq<char>) -> Seq<char> {
    match version.index_of_first('.') {
        None => version,
        Some(first) => match version.skip(first + 1).index_of_first('.') {
            None => version,
            Some(second) => version.take(first + 1 + second),
        },
    }
}

/// A row of digits counts for at least what its beginning counts for.
proof fn lemma_decimal_grows(digits: Seq<char>, count: int)
    requires
        0 <= count <= digits.len(),
    ensures
        decimal(digits.take(count)) <= decimal(digits),
    decreases digits.len(),
{
    if count == digits.len() {
        assert(digits.take(count) =~= digits);
    } else {
        lemma_decimal_grows(digits.drop_last(), count);
        assert(digits.drop_last().take(count) =~= digits.take(count));
    }
}

/// The number that `text` writes.
pub fn parse_number(text: &str) -> (parsed: Option<u32>)
    ensures
        parsed == number(text@),
{
    let chars = chars_of(text);
    let start: usize = if chars.len() > 0 && chars[0] == '+' {
        1
    } else {
        0
    };
    let ghost digits = without_plus(text@);
    assert(digits =~= chars@.skip(start as int));
    if start == chars.len() {
        return None;
    }
    let mut value: u64 = 0;
    let mut i: usize = start;
    assert(digits.take(0) =~= Seq::empty());
    while i < chars.len()
        invariant
            start <= i <= chars.len(),
            digits == without_plus(text@),
            digits == chars@.skip(start as int),
            value == decimal(digits.take(i - start)),
            value <= u32::MAX,
            forall|j: int| 0 <= j < i - start ==> is_digit(#[trigger] digits[j]),
        decreases chars.len() - i,
    {
        let c = chars[i];
        assert(digits[i - start] == c);
        if !('0' <= c && c <= '9') {
            return None;
        }
        assert(digits.take(i + 1 - start).drop_last() =~= digits.take(i - start));
        value = value * 10 + (c as u64 - '0' as u64);
        if value > 0xffff_ffff {
            proof {
                lemma_decimal_grows(digits, i + 1 - start);
            }
            return None;
        }
        i += 1;
    }
    assert(digits.take(i - start) =~= digits);
    Some(value as u32)
}

/// Whether version `a` comes before version `b`.
pub fn is_before(a: &Vec<u32>, b: &Vec<u32>) -> (before: bool)
    ensures
        before == version_before(a@, b@),
{
    let mut i: usize = 0;
    assert(a@.skip(0) =~= a@ && b@.skip(0) =~= b@);
    while i < a.len() && i < b.len()
        invariant
            i <= a.len(),
            i <= b.len(),
            version_before(a@, b@) == version_before(a@.skip(i as int), b@.skip(i as int)),
        decreases a.len() - i,
    {
        if a[i] != b[i] {
            return a[i] < b[i];
        }
        assert(a@.skip(i as int).skip(1) =~= a@.skip(i + 1));
        assert(b@.skip(i as int).skip(1) =~= b@.skip(i + 1));
        i += 1;
    }
    i < b.len()
}

/// What `version` holds before its second dot.
pub fn major_and_minor(version: &str) -> (short: String)
    ensures
        short@ == first_two_parts(version@),
{
    let chars = chars_of(version);
    proof {
        chars@.index_of_first_ensures('.');
    }
    let first = match find(&chars, '.') {
        None => {
            return version.to_string();
        },
        Some(place) => place,
    };
    let mut rest: Vec<char> = Vec::new();
    let mut i: usize = first + 1;
    while i < chars.len()
        invariant
            first < i <= chars.len(),
            rest@ == chars@.subrange(first + 1, i as int),
        decreases chars.len() - i,
    {
        rest.push(chars[i]);
        assert(rest@ =~= chars@.subrange(first + 1, i + 1));
        i += 1;
    }
    assert(rest@ =~= chars@.skip(first + 1));
    proof {
        rest@.index_of_first_ensures('.');
    }
    match find(&rest, '.') {
        None => version.to_string(),
        Some(second) => {
            let short = version.substring_char(0, first + 1 + second);
            assert(short@ =~= version@.take(first + 1 + second));
            short.to_string()
        },
    }
}

impl RoslynOfficial {
    /// The version that `version` writes, or nothing if one of its parts is no 32-bit number.
    pub fn parse_dotnet_version(version: &str) -> (parsed: Option<Vec<u32>>)
        ensures
            parsed.deep_view() == version_of(version@),
    {
        let parts = split_text(version, '.');
        let ghost texts = split(version@, '.');
        let mut numbers: Vec<u32> = Vec::new();
        let mut i: usize = 0;
        while i < parts.len()
            invariant
                i <= parts.len(),
                parts.deep_view() == texts,
                texts == split(version@, '.'),
                numbers.len() == i,
                forall|j: int|
                    0 <= j < i ==> number(#[trigger] texts[j]) is Some && numbers@[j] == number(
                        texts[j],
                    )->0,
            decreases parts.len() - i,
        {
            assert(parts@[i as int]@ == texts[i as int]);
            match parse_number(parts[i].as_str()) {
                None => {
                    return None;
                },
                Some(value) => {
                    numbers.push(value);
                },
            }
            i += 1;
        }
        assert(numbers.deep_view() =~= texts.map_values(|part: Seq<char>| number(part)->0));
        Some(numbers)
    }
}

/// No version comes before itself.
pub proof fn law_version_order_irreflexive(a: Seq<u32>)
    ensures
        !version_before(a, a),
    decreases a.len(),
{
    if a.len() > 0 {
        law_version_order_irreflexive(a.skip(1));
    }
}

/// The order of versions is transitive.
pub proof fn law_version_order_transitive(a: Seq<u32>, b: Seq<u32>, c: Seq<u32>)
    requires
        version_before(a, b),
        version_before(b, c),
    ensures
        version_before(a, c),
    decreases a.len(),
{
    if a.len() > 0 && a[0] == b[0] && b[0] == c[0] {
        law_version_order_transitive(a.skip(1), b.skip(1), c.skip(1));
    }
}

/// Of two versions that differ, one comes before the other.
pub proof fn law_version_order_total(a: Seq<u32>, b: Seq<u32>)
    ensures
        a == b || version_before(a, b) || version_before(b, a),
    decreases a.len(),
{
    if a.len() > 0 && b.len() > 0 && a[0] == b[0] {
        law_version_order_total(a.skip(1), b.skip(1));
        assert(seq![a[0]] + a.skip(1) =~= a);
        assert(seq![b[0]] + b.skip(1) =~= b);
    } else if a.len() == 0 && b.len() == 0 {
        assert(a =~= b);
    }
}

/// What a version holds before its second dot are its first two parts with a dot between them, or
/// its only part.
pub proof fn law_first_two_parts(version: Seq<char>)
    ensures
        ({
            let parts = split(version, '.');
            first_two_parts(version) == (if parts.len() == 1 {
                parts[0]
            } else {
                parts[0] + seq!['.'] + parts[1]
            })
        }),
{
    version.index_of_first_ensures('.');
    match version.index_of_first('.') {
        None => {
            lemma_split_without_separator(version, '.');
        },
        Some(first) => {
            let major = version.take(first);
            let rest = version.skip(first + 1);
            assert(!major.contains('.'));
            assert(version =~= major + seq!['.'] + rest);
            lemma_split_without_separator(major, '.');
            lemma_split_at_separator(major, '.', rest);
            lemma_split_is_not_empty(rest, '.');
            rest.index_of_first_ensures('.');
            match rest.index_of_first('.') {
                None => {
                    lemma_split_without_separator(rest, '.');
                },
                Some(second) => {
                    let minor = rest.take(second);
                    let last = rest.skip(second + 1);
                    assert(!minor.contains('.'));
                    assert(rest =~= minor + seq!['.'] + last);
                    lemma_split_without_separator(minor, '.');
                    lemma_split_at_separator(minor, '.', last);
                    assert(version.take(first + 1 + second) =~= major + seq!['.'] + minor);
                },
            }
        },
    }
}

} // verus!
