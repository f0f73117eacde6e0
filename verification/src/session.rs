//! Session names: a directory's final component with every character that is not
//! alphanumeric replaced by a hyphen.

use vstd::prelude::*;
use crate::path::{
    final_component, final_component_of, is_name, is_parent, lemma_final_component,
    lemma_final_component_of_name,
};
use crate::text::{alphanumeric, is_alphanumeric, optional_text, push_char};

verus! {

/// `name` with a hyphen in place of every character that is not alphanumeric. Length and
/// order are kept.
pub open spec fn sanitized(name: Seq<char>) -> Seq<char> {
    name.map_values(
        |c: char|
            if alphanumeric(c) {
                c
            } else {
                '-'
            },
    )
}

/// The session name that belongs to a directory: its final component, sanitized. A path
/// without a final component has no session name.
pub open spec fn session_name_of(directory: Seq<char>) -> Option<Seq<char>> {
    match final_component(directory) {
        Some(component) => Some(sanitized(component)),
        None => None,
    }
}

/// Sanitizing a second time changes nothing: a sanitized name maps to itself.
pub proof fn law_sanitized_is_idempotent(name: Seq<char>)
    ensures
        sanitized(sanitized(name)) == sanitized(name),
{
    assert(sanitized(sanitized(name)) =~= sanitized(name));
}

/// Sanitizing keeps the length, and at each place either keeps the character, which is then
/// alphanumeric, or puts a hyphen.
pub proof fn law_sanitized_keeps_shape(name: Seq<char>)
    ensures
        sanitized(name).len() == name.len(),
        forall|i: int|
            0 <= i < name.len() ==> #[trigger] sanitized(name)[i] == (if alphanumeric(name[i]) {
                name[i]
            } else {
                '-'
            }),
{
}

/// A session name is never empty, and it is the session name of itself: deriving a name from
/// a directory that is called like a session name gives that name back.
pub proof fn law_session_name_is_stable(directory: Seq<char>)
    requires
        final_component(directory) is Some,
    ensures
        session_name_of(directory)->0.len() > 0,
        session_name_of(session_name_of(directory)->0) == session_name_of(directory),
{
    let component = final_component(directory)->0;
    let name = sanitized(component);
    lemma_final_component(directory);
    assert(name.len() == component.len());
    if name == seq!['.'] {
        assert(name[0] == '.');
        assert(component[0] == '.');
        assert(component =~= seq!['.']);
    }
    if is_parent(name) {
        assert(name[0] == '.' && name[1] == '.');
        assert(component[0] == '.' && component[1] == '.');
        assert(component =~= seq!['.', '.']);
    }
    if name.contains('/') {
        let i = choose|i: int| 0 <= i < name.len() && name[i] == '/';
        assert(component[i] == '/');
    }
    assert(is_name(name));
    lemma_final_component_of_name(name);
    law_sanitized_is_idempotent(component);
}

/// Replaces every character of `name` that is not alphanumeric with a hyphen.
pub fn sanitize(name: &str) -> (clean: String)
    ensures
        clean@ == sanitized(name@),
{
    let mut clean = String::new();
    for c in it: name.chars()
        invariant
            it.seq() == name@,
            clean@ == sanitized(name@.take(it.index())),
    {
        assert(name@.take(it.index() + 1) == name@.take(it.index()).push(c));
        if is_alphanumeric(c) {
            push_char(&mut clean, c);
        } else {
            push_char(&mut clean, '-');
        }
    }
    assert(name@.take(name@.len() as int) == name@);
    clean
}

/// The session name for `directory`, or `None` where the path has no final component.
pub fn try_session_name(directory: &str) -> (name: Option<String>)
    ensures
        optional_text(name) == session_name_of(directory@),
{
    match final_component_of(directory) {
        Some(component) => Some(sanitize(component.as_str())),
        None => None,
    }
}

/// The session name for `directory`. The directory must have a final component: a path that
/// ends in a reference to the parent directory, or that names nothing, is no input.
pub fn session_name(directory: &str) -> (name: String)
    requires
        final_component(directory@) is Some,
    ensures
        Some(name@) == session_name_of(directory@),
        name@.len() > 0,
{
    proof {
        law_session_name_is_stable(directory@);
    }
    let component = final_component_of(directory);
    sanitize(component.unwrap().as_str())
}

} // verus!
