//! Text: splitting it into parts, lines and words, and trimming it.
use vstd::prelude::*;

verus! {

/// The characters that Unicode gives the property `White_Space`.
pub open spec fn is_white(c: char) -> bool {
    ||| '\u{9}' <= c <= '\u{d}'
    ||| c == ' '
    ||| c == '\u{85}'
    ||| c == '\u{a0}'
    ||| c == '\u{1680}'
    ||| '\u{2000}' <= c <= '\u{200a}'
    ||| c == '\u{2028}'
    ||| c == '\u{2029}'
    ||| c == '\u{202f}'
    ||| c == '\u{205f}'
    ||| c == '\u{3000}'
}

/// `text` without the white space that it starts with.
pub open spec fn trim_start(text: Seq<char>) -> Seq<char>
    decreases text.len(),
{
    if text.len() > 0 && is_white(text[0]) {
        trim_start(text.skip(1))
    } else {
        text
    }
}

/// `text` without the white space that it ends with.
pub open spec fn trim_end(text: Seq<char>) -> Seq<char>
    decreases text.len(),
{
    if text.len() > 0 && is_white(text.last()) {
        trim_end(text.drop_last())
    } else {
        text
    }
}

/// `text` without the white space around it.
pub open spec fn trimmed(text: Seq<char>) -> Seq<char> {
    trim_end(trim_start(text))
}

/// What stands in `text` before its first white space.
pub open spec fn word_at_start(text: Seq<char>) -> Seq<char>
    decreases text.len(),
{
    if text.len() == 0 || is_white(text[0]) {
        Seq::empty()
    } else {
        seq![text[0]] + word_at_start(text.skip(1))
    }
}

/// The first run of characters in `text` that holds no white space.
pub open spec fn first_word(text: Seq<char>) -> Option<Seq<char>> {
    let rest = trim_start(text);
    if rest.len() == 0 {
        None
    } else {
        Some(word_at_start(rest))
    }
}

/// The parts of `text` between the separators. Each separator ends one part and starts another.
pub open spec fn split(text: Seq<char>, separator: char) -> Seq<Seq<char>>
    decreases text.len(),
{
    if text.len() == 0 {
        seq![Seq::empty()]
    } else {
        let parts = split(text.drop_last(), separator);
        if text.last() == separator {
            parts.push(Seq::empty())
        } else {
            parts.drop_last().push(parts.last().push(text.last()))
        }
    }
}

/// `line` without the carriage return that it may end with.
pub open spec fn without_return(line: Seq<char>) -> Seq<char> {
    if line.len() > 0 && line.last() == '\r' {
        line.drop_last()
    } else {
        line
    }
}

/// The lines of `text`. A line ends with a line feed, or with a carriage return and a line feed;
/// the end of the last line may be left out.
pub open spec fn lines(text: Seq<char>) -> Seq<Seq<char>> {
    let parts = split(text, '\n');
    let ended = parts.drop_last().map_values(|line: Seq<char>| without_return(line));
    if parts.last().len() == 0 {
        ended
    } else {
        ended.push(parts.last())
    }
}

/// The characters of `text`.
pub fn chars_of(text: &str) -> (chars: Vec<char>)
    ensures
        chars@ == text@,
{
    let mut chars: Vec<char> = Vec::new();
    for c in iter: text.chars()
        invariant
            iter.seq() == text@,
            chars@ == text@.take(iter.index() as int),
    {
        chars.push(c);
    }
    chars
}

/// Whether `c` is white space.
pub fn is_white_space(c: char) -> (white: bool)
    ensures
        white == is_white(c),
{
    ('\u{9}' <= c && c <= '\u{d}') || c == ' ' || c == '\u{85}' || c == '\u{a0}' || c == '\u{1680}'
        || ('\u{2000}' <= c && c <= '\u{200a}') || c == '\u{2028}' || c == '\u{2029}'
        || c == '\u{202f}' || c == '\u{205f}' || c == '\u{3000}'
}

/// The place of the first `wanted` in `chars`.
pub fn find(chars: &Vec<char>, wanted: char) -> (place: Option<usize>)
    ensures
        place is Some ==> place->0 < chars.len(),
        place is Some ==> chars@.index_of_first(wanted) == Some(place->0 as int),
        place is None ==> chars@.index_of_first(wanted) is None,
{
    proof {
        chars@.index_of_first_ensures(wanted);
    }
    let mut i: usize = 0;
    while i < chars.len()
        invariant
            i <= chars.len(),
            forall|j: int| 0 <= j < i ==> chars@[j] != wanted,
        decreases chars.len() - i,
    {
        if chars[i] == wanted {
            proof {
                chars@.index_of_first_ensures(wanted);
                assert(chars@.contains(wanted));
            }
            return Some(i);
        }
        i += 1;
    }
    None
}

/// The place of the last `wanted` in `chars`.
pub fn find_last(chars: &Vec<char>, wanted: char) -> (place: Option<usize>)
    ensures
        place is Some ==> place->0 < chars.len(),
        place is Some ==> chars@.index_of_last(wanted) == Some(place->0 as int),
        place is None ==> chars@.index_of_last(wanted) is None,
{
    proof {
        chars@.index_of_last_ensures(wanted);
    }
    let mut i: usize = chars.len();
    while i > 0
        invariant
            i <= chars.len(),
            forall|j: int| i <= j < chars.len() ==> chars@[j] != wanted,
        decreases i,
    {
        i -= 1;
        if chars[i] == wanted {
            proof {
                chars@.index_of_last_ensures(wanted);
                assert(chars@.contains(wanted));
            }
            return Some(i);
        }
    }
    None
}

/// The number of characters of white space that `chars` starts with.
fn count_white(chars: &Vec<char>) -> (count: usize)
    ensures
        count <= chars.len(),
        trim_start(chars@) == chars@.skip(count as int),
        count < chars.len() ==> !is_white(chars@[count as int]),
{
    let mut i: usize = 0;
    assert(chars@.skip(0) =~= chars@);
    while i < chars.len() && is_white_space(chars[i])
        invariant
            i <= chars.len(),
            trim_start(chars@) == trim_start(chars@.skip(i as int)),
        ensures
            i <= chars.len(),
            trim_start(chars@) == trim_start(chars@.skip(i as int)),
            i < chars.len() ==> !is_white(chars@[i as int]),
        decreases chars.len() - i,
    {
        assert(chars@.skip(i as int).skip(1) =~= chars@.skip(i + 1));
        i += 1;
    }
    i
}

/// `text` without the white space around it.
pub fn trim(text: &str) -> (inner: String)
    ensures
        inner@ == trimmed(text@),
{
    let chars = chars_of(text);
    let start = count_white(&chars);
    let mut end: usize = chars.len();
    assert(chars@.subrange(start as int, end as int) =~= chars@.skip(start as int));
    while start < end && is_white_space(chars[end - 1])
        invariant
            start <= end <= chars.len(),
            trim_end(chars@.skip(start as int)) == trim_end(
                chars@.subrange(start as int, end as int),
            ),
        ensures
            start <= end <= chars.len(),
            trim_end(chars@.skip(start as int)) == trim_end(
                chars@.subrange(start as int, end as int),
            ),
            start < end ==> !is_white(chars@[end - 1]),
        decreases end,
    {
        assert(chars@.subrange(start as int, end as int).drop_last() =~= chars@.subrange(
            start as int,
            end - 1,
        ));
        end -= 1;
    }
    text.substring_char(start, end).to_string()
}

/// A word runs on for as long as no white space comes.
pub proof fn lemma_word_at_start(text: Seq<char>, count: int)
    requires
        0 <= count <= text.len(),
        forall|i: int| 0 <= i < count ==> !is_white(#[trigger] text[i]),
        count < text.len() ==> is_white(text[count]),
    ensures
        word_at_start(text) == text.take(count),
    decreases count,
{
    if count == 0 {
        assert(text.take(0) =~= Seq::empty());
    } else {
        let rest = text.skip(1);
        assert forall|i: int| 0 <= i < count - 1 implies !is_white(#[trigger] rest[i]) by {
            assert(rest[i] == text[i + 1]);
        }
        lemma_word_at_start(rest, count - 1);
        assert(seq![text[0]] + rest.take(count - 1) =~= text.take(count));
    }
}

/// The first word of `text`, if it holds any.
pub fn word(text: &str) -> (found: Option<String>)
    ensures
        found.deep_view() == first_word(text@),
{
    let chars = chars_of(text);
    let start = count_white(&chars);
    if start == chars.len() {
        return None;
    }
    let mut end: usize = start;
    while end < chars.len() && !is_white_space(chars[end])
        invariant
            start <= end <= chars.len(),
            forall|i: int| start <= i < end ==> !is_white(#[trigger] chars@[i]),
        ensures
            start <= end <= chars.len(),
            forall|i: int| start <= i < end ==> !is_white(#[trigger] chars@[i]),
            end < chars.len() ==> is_white(chars@[end as int]),
        decreases chars.len() - end,
    {
        end += 1;
    }
    proof {
        let rest = chars@.skip(start as int);
        lemma_word_at_start(rest, end - start);
        assert(rest.take(end - start) =~= chars@.subrange(start as int, end as int));
    }
    Some(text.substring_char(start, end).to_string())
}

/// The parts of `text` between the separators.
pub fn split_text(text: &str, separator: char) -> (parts: Vec<String>)
    ensures
        parts.deep_view() == split(text@, separator),
        parts.len() >= 1,
{
    let chars = chars_of(text);
    let mut parts: Vec<String> = Vec::new();
    let mut start: usize = 0;
    let mut i: usize = 0;
    assert(chars@.take(0) =~= Seq::empty());
    assert(chars@.subrange(0, 0) =~= Seq::empty());
    assert(parts.deep_view() =~= Seq::empty());
    assert(Seq::<Seq<char>>::empty().push(Seq::empty()) =~= seq![Seq::<char>::empty()]);
    while i < chars.len()
        invariant
            chars@ == text@,
            start <= i <= chars.len(),
            parts.deep_view().push(chars@.subrange(start as int, i as int)) == split(
                chars@.take(i as int),
                separator,
            ),
        decreases chars.len() - i,
    {
        let ghost before = parts.deep_view();
        let ghost part = chars@.subrange(start as int, i as int);
        assert(chars@.take(i + 1).drop_last() =~= chars@.take(i as int));
        assert(before.push(part).drop_last() =~= before);
        if chars[i] == separator {
            parts.push(text.substring_char(start, i).to_string());
            assert(parts.deep_view() =~= before.push(part));
            start = i + 1;
            assert(chars@.subrange(start as int, i + 1) =~= Seq::empty());
        } else {
            assert(chars@.subrange(start as int, i + 1) =~= part.push(chars@[i as int]));
        }
        i += 1;
    }
    let ghost before = parts.deep_view();
    parts.push(text.substring_char(start, i).to_string());
    assert(parts.deep_view() =~= before.push(chars@.subrange(start as int, i as int)));
    assert(chars@.take(i as int) =~= chars@);
    parts
}

/// `line` without the carriage return that it may end with.
fn drop_return(line: &str) -> (kept: String)
    ensures
        kept@ == without_return(line@),
{
    let chars = chars_of(line);
    if chars.len() > 0 && chars[chars.len() - 1] == '\r' {
        line.substring_char(0, chars.len() - 1).to_string()
    } else {
        line.to_string()
    }
}

/// The lines of `text`.
pub fn lines_of(text: &str) -> (found: Vec<String>)
    ensures
        found.deep_view() == lines(text@),
{
    let parts = split_text(text, '\n');
    let last: usize = parts.len() - 1;
    let ghost ended = parts.deep_view().drop_last().map_values(
        |line: Seq<char>| without_return(line),
    );
    let mut found: Vec<String> = Vec::new();
    let mut i: usize = 0;
    while i < last
        invariant
            i <= last,
            last == parts.len() - 1,
            ended == parts.deep_view().drop_last().map_values(
                |line: Seq<char>| without_return(line),
            ),
            found.deep_view() == ended.take(i as int),
        decreases last - i,
    {
        let ghost before = found.deep_view();
        let line = drop_return(parts[i].as_str());
        assert(line@ == ended[i as int]);
        found.push(line);
        assert(found.deep_view() =~= before.push(line@));
        i += 1;
    }
    assert(ended.take(last as int) =~= ended);
    if !parts[last].as_str().is_empty() {
        let ghost before = found.deep_view();
        found.push(parts[last].clone());
        assert(found.deep_view() =~= before.push(parts.deep_view().last()));
    }
    found
}

/// There is always at least one part.
pub proof fn lemma_split_is_not_empty(text: Seq<char>, separator: char)
    ensures
        split(text, separator).len() >= 1,
    decreases text.len(),
{
    if text.len() > 0 {
        lemma_split_is_not_empty(text.drop_last(), separator);
    }
}

/// Text without a separator is its only part.
pub proof fn lemma_split_without_separator(text: Seq<char>, separator: char)
    requires
        !text.contains(separator),
    ensures
        split(text, separator) == seq![text],
    decreases text.len(),
{
    if text.len() == 0 {
        assert(text =~= Seq::empty());
    } else {
        let fewer = text.drop_last();
        assert(text.contains(text.last()));
        assert(!fewer.contains(separator)) by {
            if fewer.contains(separator) {
                let i = choose|i: int| 0 <= i < fewer.len() && fewer[i] == separator;
                assert(text[i] == separator);
            }
        }
        lemma_split_without_separator(fewer, separator);
        assert(fewer.push(text.last()) =~= text);
        assert(seq![fewer].drop_last().push(text) =~= seq![text]);
    }
}

/// A separator parts what stands before it from what stands after it.
pub proof fn lemma_split_at_separator(before: Seq<char>, separator: char, after: Seq<char>)
    ensures
        split(before + seq![separator] + after, separator) == split(before, separator) + split(
            after,
            separator,
        ),
    decreases after.len(),
{
    let text = before + seq![separator] + after;
    let left = split(before, separator);
    if after.len() == 0 {
        assert(text.drop_last() =~= before);
        assert(left.push(Seq::empty()) =~= left + split(after, separator));
    } else {
        let fewer = after.drop_last();
        let right = split(fewer, separator);
        lemma_split_at_separator(before, separator, fewer);
        lemma_split_is_not_empty(fewer, separator);
        assert(text.drop_last() =~= before + seq![separator] + fewer);
        if after.last() == separator {
            assert((left + right).push(Seq::empty()) =~= left + right.push(Seq::empty()));
        } else {
            let grown = right.last().push(after.last());
            assert((left + right).drop_last().push(grown) =~= left + right.drop_last().push(grown));
        }
    }
}

} // verus!
