//! What splitting and trimming text comes to, said of places in the text.
use vstd::prelude::*;

use crate::text::{
    first_word, is_white, lemma_split_at_separator, lemma_split_is_not_empty,
    lemma_split_without_separator, lemma_word_at_start, lines, split, trim_end, trim_start,
    trimmed,
};

verus! {

/// White space is the controls from tab to carriage return, the space, the next line, and the
/// spaces and separators that Unicode has beyond Latin-1; no letter, digit or mark is.
pub proof fn law_white_space(c: char)
    ensures
        ({
            let code = c as u32;
            is_white(c) <==> {
                ||| 9 <= code <= 13
                ||| code == 32
                ||| code == 133
                ||| code == 160
                ||| code == 5760
                ||| 8192 <= code <= 8202
                ||| 8232 <= code <= 8233
                ||| code == 8239
                ||| code == 8287
                ||| code == 12288
            }
        }),
        33 <= c as u32 <= 126 ==> !is_white(c),
{
}

proof fn lemma_trim_start(text: Seq<char>, count: int)
    requires
        0 <= count <= text.len(),
        forall|i: int| 0 <= i < count ==> is_white(#[trigger] text[i]),
        count < text.len() ==> !is_white(text[count]),
    ensures
        trim_start(text) == text.skip(count),
    decreases count,
{
    if count == 0 {
        assert(text.skip(0) =~= text);
    } else {
        assert(is_white(text[0]));
        let rest = text.skip(1);
        assert forall|i: int| 0 <= i < count - 1 implies is_white(#[trigger] rest[i]) by {
            assert(rest[i] == text[i + 1]);
        }
        lemma_trim_start(rest, count - 1);
        assert(rest.skip(count - 1) =~= text.skip(count));
    }
}

proof fn lemma_trim_end(text: Seq<char>, count: int)
    requires
        0 <= count <= text.len(),
        forall|i: int| count <= i < text.len() ==> is_white(#[trigger] text[i]),
        count > 0 ==> !is_white(text[count - 1]),
    ensures
        trim_end(text) == text.take(count),
    decreases text.len(),
{
    if count == text.len() {
        assert(text.take(count) =~= text);
    } else {
        assert(is_white(text[text.len() - 1]));
        let fewer = text.drop_last();
        assert forall|i: int| count <= i < fewer.len() implies is_white(#[trigger] fewer[i]) by {
            assert(fewer[i] == text[i]);
        }
        lemma_trim_end(fewer, count);
        assert(fewer.take(count) =~= text.take(count));
    }
}

/// Trimming takes away exactly the white space on both sides: what is left starts and ends where
/// the text between the two runs of white space does.
pub proof fn law_trimmed(text: Seq<char>, start: int, end: int)
    requires
        0 <= start <= end <= text.len(),
        forall|i: int| 0 <= i < start ==> is_white(#[trigger] text[i]),
        forall|i: int| end <= i < text.len() ==> is_white(#[trigger] text[i]),
        start < end ==> !is_white(text[start]) && !is_white(text[end - 1]),
    ensures
        trimmed(text) == text.subrange(start, end),
{
    if start == end {
        lemma_trim_start(text, text.len() as int);
        lemma_trim_end(text.skip(text.len() as int), 0);
        assert(trimmed(text) =~= text.subrange(start, end));
    } else {
        lemma_trim_start(text, start);
        let rest = text.skip(start);
        assert forall|i: int| end - start <= i < rest.len() implies is_white(
            #[trigger] rest[i],
        ) by {
            assert(rest[i] == text[i + start]);
        }
        lemma_trim_end(rest, end - start);
        assert(rest.take(end - start) =~= text.subrange(start, end));
    }
}

/// The first word is what stands after the white space at the start and runs up to the next white
/// space or the end.
pub proof fn law_first_word(text: Seq<char>, start: int, end: int)
    requires
        0 <= start < end <= text.len(),
        forall|i: int| 0 <= i < start ==> is_white(#[trigger] text[i]),
        forall|i: int| start <= i < end ==> !is_white(#[trigger] text[i]),
        end < text.len() ==> is_white(text[end]),
    ensures
        first_word(text) == Some(text.subrange(start, end)),
{
    assert(!is_white(text[start]));
    lemma_trim_start(text, start);
    let rest = text.skip(start);
    assert forall|i: int| 0 <= i < end - start implies !is_white(#[trigger] rest[i]) by {
        assert(rest[i] == text[i + start]);
    }
    lemma_word_at_start(rest, end - start);
    assert(rest.take(end - start) =~= text.subrange(start, end));
}

/// White space holds no word.
pub proof fn law_no_word(text: Seq<char>)
    requires
        forall|i: int| 0 <= i < text.len() ==> is_white(#[trigger] text[i]),
    ensures
        first_word(text) is None,
{
    lemma_trim_start(text, text.len() as int);
}

/// The parts, one after the other, with a separator between each and the next.
pub open spec fn join_with(parts: Seq<Seq<char>>, separator: char) -> Seq<char>
    decreases parts.len(),
{
    if parts.len() == 0 {
        Seq::empty()
    } else if parts.len() == 1 {
        parts[0]
    } else {
        join_with(parts.drop_last(), separator) + seq![separator] + parts.last()
    }
}

/// Splitting loses nothing and leaves no separator in a part: there is a part, no part holds a
/// separator, and the parts with separators between them are the text.
pub proof fn law_split(text: Seq<char>, separator: char)
    ensures
        split(text, separator).len() >= 1,
        forall|i: int|
            0 <= i < split(text, separator).len() ==> !(#[trigger] split(text, separator)[i]).contains(
                separator,
            ),
        join_with(split(text, separator), separator) == text,
    decreases text.len(),
{
    if text.len() == 0 {
        assert(text =~= Seq::empty());
        assert(split(text, separator)[0] == Seq::<char>::empty());
    } else {
        let fewer = text.drop_last();
        let parts = split(fewer, separator);
        let whole = split(text, separator);
        law_split(fewer, separator);
        assert(text =~= fewer.push(text.last()));
        if text.last() == separator {
            assert(whole.drop_last() =~= parts);
            assert(join_with(whole, separator) =~= join_with(parts, separator) + seq![separator]
                + Seq::<char>::empty());
            assert(join_with(whole, separator) =~= text);
        } else {
            let grown = parts.last().push(text.last());
            assert(whole == parts.drop_last().push(grown));
            assert(whole.drop_last() =~= parts.drop_last());
            assert forall|i: int| 0 <= i < whole.len() implies !(#[trigger] whole[i]).contains(
                separator,
            ) by {
                if i == whole.len() - 1 {
                    assert(!parts[parts.len() - 1].contains(separator));
                    if grown.contains(separator) {
                        let k = choose|k: int| 0 <= k < grown.len() && grown[k] == separator;
                        assert(parts.last()[k] == separator);
                    }
                } else {
                    assert(whole[i] == parts[i]);
                }
            }
            assert(join_with(whole, separator) =~= join_with(parts, separator).push(text.last()));
        }
    }
}

/// Parts without a separator come back from the text that they make.
pub proof fn law_split_of_joined(parts: Seq<Seq<char>>, separator: char)
    requires
        parts.len() >= 1,
        forall|i: int| 0 <= i < parts.len() ==> !(#[trigger] parts[i]).contains(separator),
    ensures
        split(join_with(parts, separator), separator) == parts,
    decreases parts.len(),
{
    assert(!parts[parts.len() - 1].contains(separator));
    lemma_split_without_separator(parts.last(), separator);
    if parts.len() == 1 {
        assert(seq![parts[0]] =~= parts);
    } else {
        let fewer = parts.drop_last();
        assert forall|i: int| 0 <= i < fewer.len() implies !(#[trigger] fewer[i]).contains(
            separator,
        ) by {
            assert(fewer[i] == parts[i]);
        }
        law_split_of_joined(fewer, separator);
        lemma_split_at_separator(join_with(fewer, separator), separator, parts.last());
        assert(fewer + seq![parts.last()] =~= parts);
    }
}

/// Text without a line feed is one line as it stands, or none if it is empty.
pub proof fn law_single_line(line: Seq<char>)
    requires
        !line.contains('\n'),
    ensures
        lines(line) == (if line.len() == 0 {
            Seq::empty()
        } else {
            seq![line]
        }),
{
    lemma_split_without_separator(line, '\n');
    assert(lines(line) =~= (if line.len() == 0 {
        Seq::empty()
    } else {
        seq![line]
    }));
}

/// A line feed ends a line, and takes the one carriage return before it along; the lines after it
/// are those of the rest.
pub proof fn law_next_line(line: Seq<char>, rest: Seq<char>)
    requires
        !line.contains('\n'),
    ensures
        lines(line + seq!['\n'] + rest) == seq![
            if line.len() > 0 && line.last() == '\r' {
                line.drop_last()
            } else {
                line
            },
        ] + lines(rest),
{
    lemma_split_without_separator(line, '\n');
    lemma_split_at_separator(line, '\n', rest);
    lemma_split_is_not_empty(rest, '\n');
    let text = line + seq!['\n'] + rest;
    let parts = split(text, '\n');
    let after = split(rest, '\n');
    assert(parts == seq![line] + after);
    assert(parts.last() == after.last());
    assert(lines(text) =~= seq![
        if line.len() > 0 && line.last() == '\r' {
            line.drop_last()
        } else {
            line
        },
    ] + lines(rest));
}

} // verus!
