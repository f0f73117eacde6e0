//! The path resolver: from the search path to the candidate directories. The search path
//! lists root directories, separated by colons; the candidates are the immediate
//! subdirectories of every root, in the order of the roots.

use vstd::prelude::*;
use crate::commands::attach::{AttachError, AttachErrorView};
use crate::commands::{finish, finished, State, StateView, Step, StepView};
use crate::protocol::{
    entry_views, Action, ActionView, Entry, EntryView, Failure, FailureView, Listing, ListingView,
    Outcome, OutcomeView,
};
use crate::selector::{picker_arguments, picker_arguments_for};
use crate::text::{lines, optional_text, pieces, render_lines, split, texts};

verus! {

/// The roots that a search path lists. The empty search path lists none; any other lists
/// the pieces between its colons, empty ones included.
pub open spec fn roots(search_path: Seq<char>) -> Seq<Seq<char>> {
    if search_path.len() == 0 {
        Seq::empty()
    } else {
        pieces(search_path, ':')
    }
}

/// The path of an entry that is known to be a directory.
pub open spec fn subdirectory(entry: EntryView) -> Option<Seq<char>> {
    match entry {
        EntryView::Known { path, directory } => if directory {
            Some(path)
        } else {
            None
        },
        EntryView::Unknown => None,
    }
}

/// The paths of the entries that are known to be directories, in the order of the entries.
/// Entries of unknown type are passed over.
pub open spec fn subdirectories(entries: Seq<EntryView>) -> Seq<Seq<char>> {
    entries.filter_map(|entry: EntryView| subdirectory(entry))
}

/// The step that asks the user to pick one of the candidates.
pub open spec fn picking(query: Seq<char>, candidates: Seq<Seq<char>>) -> StepView {
    StepView {
        state: StateView::Picking,
        action: ActionView::Pick { arguments: picker_arguments(query), input: lines(candidates) },
    }
}

/// The step with `roots` left to list and `candidates` found so far: list the first root, or
/// go on to pick where none is left.
pub open spec fn scanning(
    query: Seq<char>,
    roots: Seq<Seq<char>>,
    candidates: Seq<Seq<char>>,
) -> StepView {
    if roots.len() == 0 {
        picking(query, candidates)
    } else {
        StepView {
            state: StateView::Scanning {
                query,
                root: roots.first(),
                rest: roots.drop_first(),
                candidates,
            },
            action: ActionView::ListDirectory { root: roots.first() },
        }
    }
}

/// The step after the search path was read. A variable that is not set counts as empty.
pub open spec fn after_search_path(query: Seq<char>, value: Option<Seq<char>>) -> StepView {
    let search_path = match value {
        Some(text) => text,
        None => Seq::empty(),
    };
    scanning(query, roots(search_path), Seq::empty())
}

/// The step after `root` was listed. A root that is no directory, or that cannot be opened,
/// ends the operation with an error; otherwise the subdirectories join the candidates and the
/// rest of the roots follow.
pub open spec fn after_listing(
    query: Seq<char>,
    root: Seq<char>,
    rest: Seq<Seq<char>>,
    candidates: Seq<Seq<char>>,
    listing: ListingView,
) -> StepView {
    match listing {
        ListingView::NotADirectory => finished(
            OutcomeView::Failure(FailureView::Attach(AttachErrorView::InvalidPath(root))),
        ),
        ListingView::Unreadable(reason) => finished(
            OutcomeView::Failure(FailureView::Attach(AttachErrorView::ReadDirError(reason))),
        ),
        ListingView::Entries(entries) => scanning(query, rest, candidates + subdirectories(entries)),
    }
}

/// The roots that `search_path` lists.
pub fn search_roots(search_path: &str) -> (listed: Vec<String>)
    ensures
        texts(listed@) == roots(search_path@),
{
    if search_path.is_empty() {
        let listed: Vec<String> = Vec::new();
        assert(texts(listed@) =~= Seq::<Seq<char>>::empty());
        listed
    } else {
        split(search_path, ':')
    }
}

/// Adds the paths of the entries that are known to be directories to the candidates.
pub fn collect_subdirectories(candidates: &mut Vec<String>, entries: &Vec<Entry>)
    ensures
        texts(final(candidates)@) == texts(old(candidates)@) + subdirectories(
            entry_views(entries@),
        ),
{
    let ghost views = entry_views(entries@);
    let ghost found = |entry: EntryView| subdirectory(entry);
    let mut i: usize = 0;
    assert(views.take(0).filter_map(found) =~= Seq::<Seq<char>>::empty());
    assert(texts(candidates@) =~= texts(old(candidates)@) + views.take(0).filter_map(found));
    while i < entries.len()
        invariant
            i <= entries.len(),
            views == entry_views(entries@),
            found == |entry: EntryView| subdirectory(entry),
            texts(candidates@) == texts(old(candidates)@) + views.take(i as int).filter_map(found),
        decreases entries.len() - i,
    {
        let ghost before = texts(candidates@);
        proof {
            views.lemma_filter_map_take_succ(found, i as int);
        }
        match &entries[i] {
            Entry::Known { path, directory } => {
                if *directory {
                    candidates.push(path.clone());
                    assert(texts(candidates@) =~= before.push(path@));
                }
            },
            Entry::Unknown => {},
        }
        i = i + 1;
    }
    assert(views.take(entries.len() as int) == views);
}

/// Lists the first of `roots`, or asks the user to pick where none is left.
pub fn scan(query: String, roots: Vec<String>, candidates: Vec<String>) -> (step: Step)
    ensures
        step@ == scanning(query@, texts(roots@), texts(candidates@)),
{
    let mut rest = roots;
    if rest.len() == 0 {
        let arguments = picker_arguments_for(query.as_str());
        let input = render_lines(&candidates);
        Step { state: State::Picking, action: Action::Pick { arguments, input } }
    } else {
        let root = rest.remove(0);
        assert(texts(rest@) =~= texts(roots@).drop_first());
        Step {
            state: State::Scanning { query, root: root.clone(), rest, candidates },
            action: Action::ListDirectory { root },
        }
    }
}

/// Takes the value of the search path variable and starts to list the roots.
pub fn on_search_path(query: String, value: Option<String>) -> (step: Step)
    ensures
        step@ == after_search_path(query@, optional_text(value)),
{
    let search_path = match value {
        Some(text) => text,
        None => String::new(),
    };
    let listed = search_roots(search_path.as_str());
    let candidates: Vec<String> = Vec::new();
    assert(texts(candidates@) =~= Seq::<Seq<char>>::empty());
    scan(query, listed, candidates)
}

/// Takes the listing of `root` and goes on to the next root, or ends with the error.
pub fn on_listing(
    query: String,
    root: String,
    rest: Vec<String>,
    candidates: Vec<String>,
    listing: Listing,
) -> (step: Step)
    ensures
        step@ == after_listing(query@, root@, texts(rest@), texts(candidates@), listing@),
{
    match listing {
        Listing::NotADirectory => finish(
            Outcome::Failure(Failure::Attach(AttachError::InvalidPath(root))),
        ),
        Listing::Unreadable(reason) => finish(
            Outcome::Failure(Failure::Attach(AttachError::ReadDirError(reason))),
        ),
        Listing::Entries(entries) => {
            let mut candidates = candidates;
            collect_subdirectories(&mut candidates, &entries);
            scan(query, rest, candidates)
        },
    }
}

} // verus!
