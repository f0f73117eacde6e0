//! Text as sequences of characters: the alphanumeric class, splitting, line terminators and
//! rendering lines.

use vstd::prelude::*;

verus! {

/// Whether `char::is_alphanumeric` accepts the character.
pub uninterp spec fn alphanumeric(c: char) -> bool;

/// Calls `char::is_alphanumeric`. The answer is a fixed property of the character, so it is
/// given a name; nothing else is claimed about which characters have it.
#[verifier::external_body]
pub(crate) fn is_alphanumeric(c: char) -> (b: bool)
    ensures
        b == alphanumeric(c),
{
    c.is_alphanumeric()
}

/// Calls `String::push`, which appends the character to the end of the string.
#[verifier::external_body]
pub(crate) fn push_char(text: &mut String, c: char)
    ensures
        final(text)@ == old(text)@.push(c),
{
    text.push(c)
}

/// The views of a sequence of strings.
pub open spec fn texts(strings: Seq<String>) -> Seq<Seq<char>> {
    strings.map_values(|s: String| s@)
}

/// The view of an optional string.
pub open spec fn optional_text(text: Option<String>) -> Option<Seq<char>> {
    match text {
        Some(t) => Some(t@),
        None => None,
    }
}

/// The pieces of `text` between occurrences of `separator`. There is always at least one
/// piece: a text without separator is its own single piece, and the empty text has one
/// empty piece.
pub open spec fn pieces(text: Seq<char>, separator: char) -> Seq<Seq<char>>
    decreases text.len(),
{
    if text.len() == 0 {
        seq![Seq::empty()]
    } else {
        let before = pieces(text.drop_last(), separator);
        if text.last() == separator {
            before.push(Seq::empty())
        } else {
            before.drop_last().push(before.last().push(text.last()))
        }
    }
}

/// The parts written one after the other with `separator` between neighbours.
pub open spec fn joined(parts: Seq<Seq<char>>, separator: char) -> Seq<char>
    decreases parts.len(),
{
    if parts.len() == 0 {
        Seq::empty()
    } else if parts.len() == 1 {
        parts[0]
    } else {
        joined(parts.drop_last(), separator).push(separator) + parts.last()
    }
}

/// The entries written out one per line: each entry is followed by a line feed.
pub open spec fn lines(entries: Seq<Seq<char>>) -> Seq<char>
    decreases entries.len(),
{
    if entries.len() == 0 {
        Seq::empty()
    } else {
        lines(entries.drop_last()) + entries.last().push('\n')
    }
}

/// Whether the character ends a line: a line feed or a carriage return.
pub open spec fn terminates_line(c: char) -> bool {
    c == '\n' || c == '\r'
}

/// `text` without the line terminator at its end. Nothing else is taken away: blanks and
/// other whitespace before the terminator stay.
pub open spec fn without_terminator(text: Seq<char>) -> Seq<char>
    decreases text.len(),
{
    if text.len() > 0 && terminates_line(text.last()) {
        without_terminator(text.drop_last())
    } else {
        text
    }
}

/// Splitting never yields an empty list of pieces.
pub proof fn lemma_pieces_nonempty(text: Seq<char>, separator: char)
    ensures
        pieces(text, separator).len() >= 1,
    decreases text.len(),
{
    if text.len() > 0 {
        lemma_pieces_nonempty(text.drop_last(), separator);
    }
}

/// No piece of a split text holds the separator.
pub proof fn lemma_pieces_hold_no_separator(text: Seq<char>, separator: char)
    ensures
        forall|i: int|
            0 <= i < pieces(text, separator).len() ==> !(#[trigger] pieces(
                text,
                separator,
            )[i]).contains(separator),
    decreases text.len(),
{
    if text.len() > 0 {
        let before = pieces(text.drop_last(), separator);
        lemma_pieces_nonempty(text.drop_last(), separator);
        lemma_pieces_hold_no_separator(text.drop_last(), separator);
        assert forall|i: int| 0 <= i < pieces(text, separator).len() implies !(#[trigger] pieces(
            text,
            separator,
        )[i]).contains(separator) by {
            let piece = pieces(text, separator)[i];
            if i < before.len() - 1 {
                assert(piece == before[i]);
            } else if text.last() == separator {
                if i == before.len() - 1 {
                    assert(piece == before[i]);
                } else {
                    assert(piece == Seq::<char>::empty());
                }
            } else {
                assert(piece == before.last().push(text.last()));
                assert(!before.last().contains(separator));
                if piece.contains(separator) {
                    let k = choose|k: int| 0 <= k < piece.len() && piece[k] == separator;
                    if k < before.last().len() {
                        assert(before.last()[k] == separator);
                    }
                }
            }
        }
    }
}

/// Joining the pieces of a text with the separator gives the text back.
pub proof fn law_pieces_join_back(text: Seq<char>, separator: char)
    ensures
        joined(pieces(text, separator), separator) == text,
    decreases text.len(),
{
    if text.len() > 0 {
        let shorter = text.drop_last();
        let before = pieces(shorter, separator);
        lemma_pieces_nonempty(shorter, separator);
        law_pieces_join_back(shorter, separator);
        if text.last() == separator {
            let after = before.push(Seq::empty());
            assert(after.drop_last() == before);
            assert(joined(after, separator) == joined(before, separator).push(separator)
                + Seq::<char>::empty());
            assert(joined(after, separator) == shorter.push(separator));
            assert(shorter.push(text.last()) == text);
        } else {
            let grown = before.last().push(text.last());
            let after = before.drop_last().push(grown);
            assert(after.drop_last() == before.drop_last());
            if before.len() == 1 {
                assert(joined(before, separator) == before[0]);
                assert(joined(after, separator) == grown);
                assert(grown == shorter.push(text.last()));
            } else {
                let head = joined(before.drop_last(), separator).push(separator);
                assert(joined(before, separator) == head + before.last());
                assert(joined(after, separator) == head + grown);
                assert(head + grown == (head + before.last()).push(text.last()));
            }
            assert(shorter.push(text.last()) == text);
        }
    } else {
        assert(joined(seq![Seq::<char>::empty()], separator) == Seq::<char>::empty());
    }
}

/// Without its terminator a text is a prefix of itself that does not end in a line feed or
/// a carriage return, and what is left out are such characters only.
pub proof fn law_without_terminator(text: Seq<char>)
    ensures
        without_terminator(text).len() <= text.len(),
        without_terminator(text) == text.take(without_terminator(text).len() as int),
        without_terminator(text).len() > 0 ==> !terminates_line(without_terminator(text).last()),
        forall|i: int|
            without_terminator(text).len() <= i < text.len() ==> terminates_line(
                #[trigger] text[i],
            ),
    decreases text.len(),
{
    if text.len() > 0 && terminates_line(text.last()) {
        law_without_terminator(text.drop_last());
        let kept = without_terminator(text).len() as int;
        assert(text.drop_last().take(kept) == text.take(kept));
        assert forall|i: int| kept <= i < text.len() implies terminates_line(
            #[trigger] text[i],
        ) by {
            if i < text.len() - 1 {
                assert(text[i] == text.drop_last()[i]);
            }
        }
    } else {
        assert(text.take(text.len() as int) == text);
    }
}

/// The characters of a string, in order.
pub fn chars_of(text: &str) -> (chars: Vec<char>)
    ensures
        chars@ == text@,
{
    let mut chars: Vec<char> = Vec::new();
    for c in it: text.chars()
        invariant
            it.seq() == text@,
            chars@ == text@.take(it.index()),
    {
        assert(text@.take(it.index() + 1) == text@.take(it.index()).push(c));
        chars.push(c);
    }
    assert(text@.take(text@.len() as int) == text@);
    chars
}

/// The string made of the characters from `start` up to, not including, `end`.
pub fn string_of(chars: &Vec<char>, start: usize, end: usize) -> (text: String)
    requires
        start <= end <= chars.len(),
    ensures
        text@ == chars@.subrange(start as int, end as int),
{
    let mut text = String::new();
    let mut i: usize = start;
    while i < end
        invariant
            start <= i <= end <= chars.len(),
            text@ == chars@.subrange(start as int, i as int),
        decreases end - i,
    {
        assert(chars@.subrange(start as int, i + 1) == chars@.subrange(start as int, i as int).push(
            chars@[i as int],
        ));
        push_char(&mut text, chars[i]);
        i = i + 1;
    }
    text
}

/// Splits `text` at every occurrence of `separator`.
pub fn split(text: &str, separator: char) -> (parts: Vec<String>)
    ensures
        texts(parts@) == pieces(text@, separator),
{
    let mut parts: Vec<String> = Vec::new();
    let mut current = String::new();
    for c in it: text.chars()
        invariant
            it.seq() == text@,
            texts(parts@).push(current@) == pieces(text@.take(it.index()), separator),
    {
        let ghost seen = text@.take(it.index());
        let ghost before = pieces(seen, separator);
        assert(text@.take(it.index() + 1).drop_last() == seen);
        assert(before.drop_last() == texts(parts@));
        if c == separator {
            parts.push(current);
            current = String::new();
            assert(texts(parts@) == before);
        } else {
            push_char(&mut current, c);
        }
    }
    assert(text@.take(text@.len() as int) == text@);
    let ghost done = texts(parts@);
    parts.push(current);
    assert(texts(parts@) == done.push(current@));
    parts
}

/// Writes the entries out one per line.
pub fn render_lines(entries: &Vec<String>) -> (text: String)
    ensures
        text@ == lines(texts(entries@)),
{
    let mut text = String::new();
    let mut i: usize = 0;
    while i < entries.len()
        invariant
            i <= entries.len(),
            text@ == lines(texts(entries@).take(i as int)),
        decreases entries.len() - i,
    {
        assert(texts(entries@).take(i + 1).drop_last() == texts(entries@).take(i as int));
        text.append(entries[i].as_str());
        push_char(&mut text, '\n');
        i = i + 1;
    }
    assert(texts(entries@).take(entries.len() as int) == texts(entries@));
    text
}

/// Removes the line terminator at the end of `text`, and nothing else.
pub fn strip_terminator(text: &str) -> (kept: String)
    ensures
        kept@ == without_terminator(text@),
{
    let chars = chars_of(text);
    let mut end: usize = chars.len();
    assert(chars@.take(end as int) == chars@);
    while end > 0 && (chars[end - 1] == '\n' || chars[end - 1] == '\r')
        invariant
            end <= chars.len(),
            without_terminator(chars@) == without_terminator(chars@.take(end as int)),
        decreases end,
    {
        assert(chars@.take(end as int).drop_last() == chars@.take(end - 1));
        end = end - 1;
    }
    assert(chars@.take(end as int) == chars@.subrange(0, end as int));
    string_of(&chars, 0, end)
}

} // verus!
