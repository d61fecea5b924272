//! What versions are and how they compare, said of their digits and numbers.
use vstd::prelude::*;

use crate::text_laws::{join_with, law_split_of_joined};
use crate::version::{
    all_digits, decimal, first_two_parts, is_digit, number, version_before,
    version_of, without_plus,
};

verus! {

proof fn lemma_agreeing_start(a: Seq<u32>, b: Seq<u32>, k: int)
    requires
        0 <= k <= a.len(),
        k < b.len(),
        a.take(k) == b.take(k),
        k == a.len() || a[k] < b[k],
    ensures
        version_before(a, b),
    decreases k,
{
    if k > 0 {
        assert(a[0] == a.take(k)[0] && b[0] == b.take(k)[0]);
        assert(a.skip(1).take(k - 1) =~= a.take(k).skip(1));
        assert(b.skip(1).take(k - 1) =~= b.take(k).skip(1));
        lemma_agreeing_start(a.skip(1), b.skip(1), k - 1);
    }
}

proof fn lemma_deciding_place(a: Seq<u32>, b: Seq<u32>) -> (k: int)
    requires
        version_before(a, b),
    ensures
        0 <= k <= a.len(),
        k < b.len(),
        a.take(k) == b.take(k),
        k == a.len() || a[k] < b[k],
    decreases a.len(),
{
    if a.len() == 0 || a[0] != b[0] {
        assert(a.take(0) =~= b.take(0));
        0
    } else {
        let k = lemma_deciding_place(a.skip(1), b.skip(1)) + 1;
        assert(a.take(k) =~= seq![a[0]] + a.skip(1).take(k - 1));
        assert(b.take(k) =~= seq![b[0]] + b.skip(1).take(k - 1));
        k
    }
}

/// A version comes before another exactly if, up to some place, both hold the same numbers, and
/// at that place it has either ended, while the other goes on, or the smaller number.
pub proof fn law_version_before(a: Seq<u32>, b: Seq<u32>)
    ensures
        version_before(a, b) <==> exists|k: int|
            0 <= k <= a.len() && k < b.len() && #[trigger] a.take(k) == b.take(k) && (k == a.len()
                || a[k] < b[k]),
{
    if version_before(a, b) {
        let k = lemma_deciding_place(a, b);
        assert(a.take(k) == b.take(k));
    }
    if exists|k: int|
        0 <= k <= a.len() && k < b.len() && #[trigger] a.take(k) == b.take(k) && (k == a.len()
            || a[k] < b[k]) {
        let k = choose|k: int|
            0 <= k <= a.len() && k < b.len() && #[trigger] a.take(k) == b.take(k) && (k == a.len()
                || a[k] < b[k]);
        lemma_agreeing_start(a, b, k);
    }
}

/// A version comes before another where, after the same numbers, it has the smaller one, whatever
/// comes after.
pub proof fn law_first_difference_decides(
    start: Seq<u32>,
    m: u32,
    n: u32,
    a_rest: Seq<u32>,
    b_rest: Seq<u32>,
)
    requires
        m != n,
    ensures
        version_before(start + seq![m] + a_rest, start + seq![n] + b_rest) <==> m < n,
{
    let a = start + seq![m] + a_rest;
    let b = start + seq![n] + b_rest;
    let k = start.len() as int;
    assert(a.take(k) =~= start && b.take(k) =~= start);
    assert(a[k] == m && b[k] == n);
    if m < n {
        lemma_agreeing_start(a, b, k);
    } else if version_before(a, b) {
        let place = lemma_deciding_place(a, b);
        if place > k {
            assert(a.take(place)[k] == b.take(place)[k]);
        } else if place < k {
            assert(a[place] == a.take(k)[place] && b[place] == b.take(k)[place]);
        }
    }
}

/// A digit alone is the number that it stands for.
pub proof fn law_number_of_one_digit(digit: char)
    requires
        '0' <= digit <= '9',
    ensures
        number(seq![digit]) == Some((digit as u32 - '0' as u32) as u32),
{
    let text = seq![digit];
    assert(text.drop_last() =~= Seq::empty());
    assert(text.last() == digit);
    reveal_with_fuel(decimal, 2);
    assert(is_digit(text[0]));
    assert(all_digits(text));
    assert(without_plus(text) == text);
}

/// One more digit makes a number ten times as large, and adds the digit. What does not fit into 32
/// bits is no number, nor is anything longer.
pub proof fn law_number_with_one_more_digit(digits: Seq<char>, digit: char)
    requires
        digits.len() > 0,
        forall|i: int| 0 <= i < digits.len() ==> '0' <= #[trigger] digits[i] <= '9',
        '0' <= digit <= '9',
    ensures
        number(digits.push(digit)) == (match number(digits) {
            Some(value) if value * 10 + (digit as int - '0' as int) <= 0xffff_ffff => Some(
                (value * 10 + (digit as int - '0' as int)) as u32,
            ),
            _ => None,
        }),
{
    let more = digits.push(digit);
    assert(more.drop_last() =~= digits);
    assert('0' <= digits[0] <= '9');
    assert(without_plus(digits) == digits);
    assert(without_plus(more) == more);
    assert(all_digits(digits)) by {
        assert forall|i: int| 0 <= i < digits.len() implies is_digit(#[trigger] digits[i]) by {}
    }
    assert(all_digits(more)) by {
        assert forall|i: int| 0 <= i < more.len() implies is_digit(#[trigger] more[i]) by {
            if i < digits.len() {
                assert(more[i] == digits[i]);
            }
        }
    }
}

/// A plus sign before a number makes no difference; a second one does.
pub proof fn law_number_with_plus(text: Seq<char>)
    ensures
        text.len() > 0 && text[0] != '+' ==> number(seq!['+'] + text) == number(text),
        text.len() > 0 && text[0] == '+' ==> number(seq!['+'] + text) is None,
{
    assert((seq!['+'] + text).skip(1) =~= text);
    if text.len() > 0 && text[0] == '+' {
        assert(!is_digit(text[0]));
    }
}

/// Nothing is no number, nor is a plus sign alone, nor what holds anything but digits after the
/// sign.
pub proof fn law_no_number(text: Seq<char>)
    ensures
        text.len() == 0 ==> number(text) is None,
        text == seq!['+'] ==> number(text) is None,
        (exists|i: int|
            0 <= i < text.len() && !('0' <= #[trigger] text[i] <= '9') && !(i == 0 && text[0]
                == '+')) ==> number(text) is None,
{
    if exists|i: int|
        0 <= i < text.len() && !('0' <= #[trigger] text[i] <= '9') && !(i == 0 && text[0] == '+') {
        let i = choose|i: int|
            0 <= i < text.len() && !('0' <= #[trigger] text[i] <= '9') && !(i == 0 && text[0]
                == '+');
        let digits = without_plus(text);
        if text[0] == '+' {
            assert(digits[i - 1] == text[i]);
            assert(!is_digit(digits[i - 1]));
        } else {
            assert(!is_digit(digits[i]));
        }
    }
}

/// Text made of parts with dots between them is a version exactly if each part is a number, and
/// then it is those numbers in their order.
pub proof fn law_version_of_parts(parts: Seq<Seq<char>>)
    requires
        parts.len() >= 1,
        forall|i: int| 0 <= i < parts.len() ==> !(#[trigger] parts[i]).contains('.'),
    ensures
        ({
            let version = version_of(join_with(parts, '.'));
            &&& version is Some <==> forall|i: int|
                0 <= i < parts.len() ==> number(#[trigger] parts[i]) is Some
            &&& version is Some ==> version->0.len() == parts.len()
            &&& version is Some ==> forall|i: int|
                0 <= i < parts.len() ==> number(parts[i]) == Some(#[trigger] version->0[i])
        }),
{
    law_split_of_joined(parts, '.');
}

/// The short form of a version ends before its second dot.
pub proof fn law_short_version(major: Seq<char>, minor: Seq<char>, rest: Seq<char>)
    requires
        !major.contains('.'),
        !minor.contains('.'),
        rest.len() > 0 ==> rest[0] == '.',
    ensures
        first_two_parts(major) == major,
        first_two_parts(major + seq!['.'] + minor + rest) == major + seq!['.'] + minor,
{
    major.index_of_first_ensures('.');
    let version = major + seq!['.'] + minor + rest;
    version.index_of_first_ensures('.');
    let dot = major.len() as int;
    assert(version[dot] == '.');
    assert(version.contains('.'));
    let first = version.index_of_first('.')->0;
    if first < dot {
        assert(version[first] == major[first]);
    }
    assert(first == dot);
    let tail = version.skip(dot + 1);
    assert(tail =~= minor + rest);
    tail.index_of_first_ensures('.');
    if rest.len() == 0 {
        assert(tail =~= minor);
        assert(version =~= major + seq!['.'] + minor);
    } else {
        let next = minor.len() as int;
        assert(tail[next] == '.');
        assert(tail.contains('.'));
        let second = tail.index_of_first('.')->0;
        if second < next {
            assert(tail[second] == minor[second]);
        }
        assert(second == next);
        assert(version.take(dot + 1 + next) =~= major + seq!['.'] + minor);
    }
}

} // verus!
