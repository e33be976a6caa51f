//! Framing the extraction tool's output for the JSON parser.
//!
//! The tool prints one JSON object per line and never an array. The parser
//! wants one document, so the lines are joined with commas and put between
//! square brackets.

use vstd::prelude::*;

verus! {

/// `String::push` appends one character.
pub assume_specification[ String::push ](text: &mut String, ch: char)
    ensures
        final(text)@ == old(text)@.push(ch),
;

/// The lines of `text`: what stands before, between and after its line
/// breaks. A text without a line break is one line.
pub open spec fn lines(text: Seq<char>) -> Seq<Seq<char>>
    decreases text.len(),
{
    if text.len() == 0 {
        seq![Seq::empty()]
    } else {
        let before = lines(text.drop_last());
        if text.last() == '\n' {
            before.push(Seq::empty())
        } else {
            before.drop_last().push(before.last().push(text.last()))
        }
    }
}

/// The lines of `text` that are not empty.
pub open spec fn records(text: Seq<char>) -> Seq<Seq<char>> {
    lines(text).filter(|line: Seq<char>| line.len() > 0)
}

/// `parts` one after the other, with `separator` between each two.
pub open spec fn joined_with(parts: Seq<Seq<char>>, separator: char) -> Seq<char>
    decreases parts.len(),
{
    if parts.len() == 0 {
        Seq::empty()
    } else if parts.len() == 1 {
        parts.last()
    } else {
        joined_with(parts.drop_last(), separator).push(separator) + parts.last()
    }
}

/// The JSON array whose elements are the non-empty lines of `text`.
pub open spec fn framed(text: Seq<char>) -> Seq<char> {
    seq!['['] + joined_with(records(text), ',') + seq![']']
}

/// A text has at least one line.
pub proof fn lemma_lines_len(text: Seq<char>)
    ensures
        lines(text).len() >= 1,
    decreases text.len(),
{
    if text.len() > 0 {
        lemma_lines_len(text.drop_last());
    }
}

/// An empty text has one line, which is empty, and so no record.
pub proof fn lemma_records_empty()
    ensures
        lines(Seq::empty()) == seq![Seq::<char>::empty()],
        records(Seq::empty()) == Seq::<Seq<char>>::empty(),
{
    reveal_with_fuel(Seq::filter, 2);
    let only = lines(Seq::empty());
    assert(only.drop_last() =~= Seq::<Seq<char>>::empty());
    assert(records(Seq::empty()) =~= Seq::<Seq<char>>::empty());
}

/// What one more character does to the lines and to the records of a text:
/// a line break closes the last line, any other character lengthens it.
pub proof fn lemma_records_push(text: Seq<char>, ch: char)
    ensures
        ch == '\n' ==> {
            &&& lines(text.push(ch)) == lines(text).push(Seq::empty())
            &&& records(text.push(ch)) == records(text)
        },
        ch != '\n' ==> lines(text.push(ch)) == lines(text).drop_last().push(
            lines(text).last().push(ch),
        ),
        ch != '\n' && lines(text).last().len() == 0 ==> records(text.push(ch)) == records(
            text,
        ).push(seq![ch]),
        ch != '\n' && lines(text).last().len() > 0 ==> {
            &&& records(text).len() > 0
            &&& records(text.push(ch)) == records(text).drop_last().push(
                records(text).last().push(ch),
            )
        },
{
    reveal(Seq::filter);
    lemma_lines_len(text);
    let kept = |line: Seq<char>| line.len() > 0;
    let before = lines(text);
    let after = lines(text.push(ch));
    assert(text.push(ch).drop_last() =~= text);
    if ch == '\n' {
        assert(after.drop_last() =~= before);
    } else {
        assert(after.drop_last() =~= before.drop_last());
        if before.last().len() == 0 {
            assert(seq![ch] =~= before.last().push(ch));
        } else {
            assert(before.filter(kept).drop_last() =~= before.drop_last().filter(kept));
        }
    }
}

/// The lines of a text are its parts between line breaks: none of them holds
/// a line break, and with a line break between each two they are the text.
pub proof fn law_lines_split(text: Seq<char>)
    ensures
        forall|at: int| 0 <= at < lines(text).len() ==> !(#[trigger] lines(text)[at]).contains('\n'),
        joined_with(lines(text), '\n') == text,
    decreases text.len(),
{
    if text.len() == 0 {
        assert(joined_with(lines(text), '\n') =~= text);
    } else {
        let head = text.drop_last();
        let before = lines(head);
        let after = lines(text);
        law_lines_split(head);
        lemma_lines_len(head);
        assert(text =~= head.push(text.last()));
        if text.last() == '\n' {
            assert(after.drop_last() =~= before);
            assert(joined_with(after, '\n') =~= text);
        } else {
            let open = before.last();
            assert(after.drop_last() =~= before.drop_last());
            assert forall|at: int| 0 <= at < after.len() implies !(#[trigger] after[at]).contains(
                '\n',
            ) by {
                if at == after.len() - 1 {
                    assert(!before[at].contains('\n'));
                    if after[at].contains('\n') {
                        let inside = choose|inside: int|
                            0 <= inside < after[at].len() && after[at][inside] == '\n';
                        assert(open[inside] == '\n');
                    }
                } else {
                    assert(after[at] == before[at]);
                }
            }
            if before.len() == 1 {
                assert(joined_with(after, '\n') =~= text);
            } else {
                assert(joined_with(after, '\n') =~= joined_with(before, '\n').push(text.last()));
            }
        }
    }
}

/// A text without output frames to the empty array.
pub proof fn law_frame_of_nothing()
    ensures
        framed(Seq::empty()) == seq!['[', ']'],
{
    lemma_records_empty();
    assert(framed(Seq::empty()) =~= seq!['[', ']']);
}

/// Joins the non-empty lines of `text` with commas and puts them between
/// square brackets.
pub fn frame(text: &str) -> (array: String)
    ensures
        array@ == framed(text@),
{
    let mut array = String::new();
    array.push('[');
    let mut any = false;
    let mut inside = false;
    proof {
        assert(text@.take(0) =~= Seq::<char>::empty());
        lemma_records_empty();
    }
    for ch in it: text.chars()
        invariant
            it.seq() == text@,
            any == (records(text@.take(it.index() as int)).len() > 0),
            inside == (lines(text@.take(it.index() as int)).last().len() > 0),
            array@ == seq!['['] + joined_with(records(text@.take(it.index() as int)), ','),
    {
        proof {
            let seen = text@.take(it.index() as int);
            assert(text@.take(it.index() + 1) =~= seen.push(ch));
            lemma_records_push(seen, ch);
            lemma_lines_len(seen);
            if ch != '\n' && inside {
                assert(records(seen).drop_last().push(records(seen).last().push(ch)).drop_last()
                    =~= records(seen).drop_last());
            } else if ch != '\n' {
                assert(records(seen).push(seq![ch]).drop_last() =~= records(seen));
            }
        }
        if ch == '\n' {
            inside = false;
        } else {
            if !inside && any {
                array.push(',');
            }
            array.push(ch);
            inside = true;
            any = true;
        }
    }
    assert(text@.take(text@.len() as int) =~= text@);
    array.push(']');
    array
}

} // verus!
