//! Directory paths as text: the segments between slashes, the final component, and joining.

use vstd::prelude::*;
use crate::text::{chars_of, pieces, push_char, split, texts};

verus! {

/// Whether a segment between two slashes names something: it is neither empty nor the
/// single dot that stands for the directory itself.
pub open spec fn is_name(segment: Seq<char>) -> bool {
    segment.len() > 0 && segment != seq!['.']
}

/// Whether a segment is the two dots that stand for the parent directory.
pub open spec fn is_parent(segment: Seq<char>) -> bool {
    segment == seq!['.', '.']
}

/// The last of the segments that names something, if any does.
pub open spec fn last_name(segments: Seq<Seq<char>>) -> Option<Seq<char>>
    decreases segments.len(),
{
    if segments.len() == 0 {
        None
    } else if is_name(segments.last()) {
        Some(segments.last())
    } else {
        last_name(segments.drop_last())
    }
}

/// The final component of a path: its last segment that names something, unless that is a
/// reference to the parent directory. Empty segments and single dots are passed over, so a
/// path may end in slashes; the root and the empty path have no final component.
pub open spec fn final_component(path: Seq<char>) -> Option<Seq<char>> {
    match last_name(pieces(path, '/')) {
        Some(name) => if is_parent(name) {
            None
        } else {
            Some(name)
        },
        None => None,
    }
}

/// `name` placed below the directory `base`: a slash is put between the two unless `base` is
/// empty or already ends in one.
pub open spec fn joined_path(base: Seq<char>, name: Seq<char>) -> Seq<char> {
    if base.len() == 0 || base.last() == '/' {
        base + name
    } else {
        base.push('/') + name
    }
}

/// The last name among some segments is one of them.
pub proof fn lemma_last_name_is_segment(segments: Seq<Seq<char>>)
    ensures
        last_name(segments) matches Some(name) ==> is_name(name) && segments.contains(name),
    decreases segments.len(),
{
    if segments.len() > 0 {
        if is_name(segments.last()) {
            assert(segments[segments.len() - 1] == segments.last());
        } else {
            lemma_last_name_is_segment(segments.drop_last());
            if last_name(segments) is Some {
                let name = last_name(segments)->0;
                let i = choose|i: int|
                    0 <= i < segments.drop_last().len() && segments.drop_last()[i] == name;
                assert(segments[i] == name);
            }
        }
    }
}

/// A final component is not empty, holds no slash, and is neither a single dot nor two.
pub proof fn lemma_final_component(path: Seq<char>)
    ensures
        final_component(path) matches Some(name) ==> {
            &&& name.len() > 0
            &&& !name.contains('/')
            &&& is_name(name)
            &&& !is_parent(name)
        },
{
    if final_component(path) is Some {
        let name = final_component(path)->0;
        let segments = pieces(path, '/');
        lemma_last_name_is_segment(segments);
        crate::text::lemma_pieces_hold_no_separator(path, '/');
        let i = choose|i: int| 0 <= i < segments.len() && segments[i] == name;
        assert(!segments[i].contains('/'));
    }
}

/// A text with a name's shape is its own final component.
pub proof fn lemma_final_component_of_name(name: Seq<char>)
    requires
        is_name(name),
        !is_parent(name),
        !name.contains('/'),
    ensures
        final_component(name) == Some(name),
{
    lemma_pieces_without_separator(name, '/');
    assert(seq![name].last() == name);
}

/// A text that does not hold the separator is a single piece.
pub proof fn lemma_pieces_without_separator(text: Seq<char>, separator: char)
    requires
        !text.contains(separator),
    ensures
        pieces(text, separator) == seq![text],
    decreases text.len(),
{
    if text.len() == 0 {
        assert(text == Seq::<char>::empty());
    } else {
        let shorter = text.drop_last();
        assert(text.last() == text[text.len() - 1]);
        assert forall|i: int| 0 <= i < shorter.len() implies shorter[i] != separator by {
            assert(shorter[i] == text[i]);
        }
        lemma_pieces_without_separator(shorter, separator);
        assert(seq![shorter].drop_last().push(seq![shorter].last().push(text.last())) == seq![
            shorter.push(text.last()),
        ]);
        assert(shorter.push(text.last()) == text);
    }
}

/// Whether the characters are a segment that names something.
fn names_something(segment: &Vec<char>) -> (b: bool)
    ensures
        b == is_name(segment@),
{
    if segment.len() == 0 {
        false
    } else if segment.len() == 1 && segment[0] == '.' {
        assert(segment@ == seq!['.']);
        false
    } else {
        assert(seq!['.'].len() == 1);
        assert(seq!['.'][0] == '.');
        true
    }
}

/// Whether the characters are the two dots of a reference to the parent directory.
fn names_parent(segment: &Vec<char>) -> (b: bool)
    ensures
        b == is_parent(segment@),
{
    if segment.len() == 2 && segment[0] == '.' && segment[1] == '.' {
        assert(segment@ == seq!['.', '.']);
        true
    } else {
        assert(seq!['.', '.'].len() == 2);
        assert(seq!['.', '.'][0] == '.');
        assert(seq!['.', '.'][1] == '.');
        false
    }
}

/// The final component of `path`, or `None` where the path ends in a reference to the parent
/// directory or names nothing at all.
pub fn final_component_of(path: &str) -> (component: Option<String>)
    ensures
        crate::text::optional_text(component) == final_component(path@),
{
    let parts = split(path, '/');
    let mut i: usize = parts.len();
    assert(texts(parts@).take(i as int) == texts(parts@));
    while i > 0
        invariant
            i <= parts.len(),
            texts(parts@) == pieces(path@, '/'),
            last_name(texts(parts@)) == last_name(texts(parts@).take(i as int)),
        decreases i,
    {
        let segment = chars_of(parts[i - 1].as_str());
        assert(texts(parts@).take(i as int).last() == segment@);
        assert(texts(parts@).take(i as int).drop_last() == texts(parts@).take(i - 1));
        if names_something(&segment) {
            if names_parent(&segment) {
                return None;
            }
            return Some(parts[i - 1].clone());
        }
        i = i - 1;
    }
    None
}

/// Places `name` below the directory `base`.
pub fn join(base: &str, name: &str) -> (path: String)
    ensures
        path@ == joined_path(base@, name@),
{
    let chars = chars_of(base);
    let mut path = base.to_owned();
    if chars.len() > 0 && chars[chars.len() - 1] != '/' {
        push_char(&mut path, '/');
    }
    path.append(name);
    path
}

} // verus!
