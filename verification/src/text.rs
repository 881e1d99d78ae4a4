//! Small pieces of text handling shared by the other modules.

use vstd::prelude::*;
use vstd::string::*;

verus! {

/// Trusted: `String::push` appends the given character to the end of the
/// string and changes nothing else.
pub assume_specification[ String::push ](text: &mut String, ch: char)
    ensures
        final(text)@ == old(text)@.push(ch),
;

/// The lines, each followed by a line feed, one after the other.
pub open spec fn joined(lines: Seq<Seq<char>>) -> Seq<char>
    decreases lines.len(),
{
    if lines.len() == 0 {
        Seq::empty()
    } else {
        joined(lines.drop_last()) + lines.last() + seq!['\n']
    }
}

/// How often `ch` occurs in `text`.
pub open spec fn occurrences(text: Seq<char>, ch: char) -> nat
    decreases text.len(),
{
    if text.len() == 0 {
        0
    } else {
        occurrences(text.drop_last(), ch) + if text.last() == ch {
            1nat
        } else {
            0nat
        }
    }
}

/// `ch` occurs nowhere in `text`.
pub open spec fn lacks(text: Seq<char>, ch: char) -> bool {
    forall|i: int| 0 <= i < text.len() ==> text[i] != ch
}

/// The occurrences in a concatenation are those of its two parts.
pub proof fn lemma_occurrences_concat(a: Seq<char>, b: Seq<char>, ch: char)
    ensures
        occurrences(a + b, ch) == occurrences(a, ch) + occurrences(b, ch),
    decreases b.len(),
{
    if b.len() == 0 {
        assert(a + b =~= a);
    } else {
        assert((a + b).drop_last() =~= a + b.drop_last());
        assert((a + b).last() == b.last());
        lemma_occurrences_concat(a, b.drop_last(), ch);
    }
}

/// A character occurs zero times exactly in the texts that lack it.
pub proof fn lemma_occurrences_lacking(text: Seq<char>, ch: char)
    ensures
        lacks(text, ch) <==> occurrences(text, ch) == 0,
    decreases text.len(),
{
    if text.len() > 0 {
        let rest = text.drop_last();
        lemma_occurrences_lacking(rest, ch);
        if lacks(text, ch) {
            assert forall|i: int| 0 <= i < rest.len() implies rest[i] != ch by {
                assert(rest[i] == text[i]);
            }
            assert(text[text.len() - 1] != ch);
        }
        if occurrences(text, ch) == 0 {
            assert forall|i: int| 0 <= i < text.len() implies text[i] != ch by {
                if i < rest.len() {
                    assert(rest[i] == text[i]);
                }
            }
        }
    }
}

/// Lines that hold no line feed themselves are joined into a text with one
/// line feed for each line.
pub proof fn lemma_joined_line_feeds(lines: Seq<Seq<char>>)
    requires
        forall|i: int| 0 <= i < lines.len() ==> lacks(#[trigger] lines[i], '\n'),
    ensures
        occurrences(joined(lines), '\n') == lines.len(),
    decreases lines.len(),
{
    if lines.len() > 0 {
        let rest = lines.drop_last();
        assert forall|i: int| 0 <= i < rest.len() implies lacks(#[trigger] rest[i], '\n') by {
            assert(rest[i] == lines[i]);
        }
        lemma_joined_line_feeds(rest);
        assert(lacks(lines[lines.len() - 1], '\n'));
        lemma_occurrences_lacking(lines.last(), '\n');
        lemma_occurrences_concat(joined(rest), lines.last(), '\n');
        lemma_occurrences_concat(joined(rest) + lines.last(), seq!['\n'], '\n');
        assert(seq!['\n'].drop_last() =~= Seq::<char>::empty());
        assert(occurrences(seq!['\n'], '\n') == 1) by {
            reveal_with_fuel(occurrences, 2);
        }
    }
}

/// Writes the lines one after the other, each followed by a line feed.
pub fn join_lines(lines: &Vec<String>) -> (text: String)
    ensures
        text@ == joined(lines@.map_values(|line: String| line@)),
{
    let ghost views = lines@.map_values(|line: String| line@);
    let mut text = String::new();
    let mut i: usize = 0;
    assert(views.take(0) =~= Seq::<Seq<char>>::empty());
    while i < lines.len()
        invariant
            i <= lines.len(),
            views == lines@.map_values(|line: String| line@),
            text@ == joined(views.take(i as int)),
        decreases lines.len() - i,
    {
        proof {
            assert(views.take(i + 1).drop_last() =~= views.take(i as int));
            assert(views.take(i + 1).last() == lines@[i as int]@);
        }
        text.append(lines[i].as_str());
        text.push('\n');
        i += 1;
    }
    assert(views.take(i as int) =~= views);
    text
}

} // verus!
