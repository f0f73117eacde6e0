//! A model of what surrounds the program, and what holds of every run against it: the
//! multiplexer's sessions, the files that exist, the environment and the user's choice.
//! Nothing here is executed; the laws are proved of the steps that the commands take.

use vstd::prelude::*;
use crate::bootstrap::{fallback_script, injecting, local_script, resolving, TEMPLATE};
use crate::commands::attach::{begun, connecting};
use crate::commands::{transition, StepView};
use crate::multiplexer::RequestView;
use crate::protocol::{ActionView, EntryView, EventView, Fatal, ListingView, OutcomeView};
use crate::resolver::{after_search_path, picking, roots, scanning, subdirectories};
use crate::selector::{picker_arguments, querying};
use crate::session::session_name_of;

verus! {

/// What surrounds the program.
pub struct World {
    /// The environment variables that are set.
    pub variables: Map<Seq<char>, Seq<char>>,
    /// What listing a directory gives; a path that is not here is no directory.
    pub listings: Map<Seq<char>, ListingView>,
    /// What the fuzzy finder writes once the user is done.
    pub picked: Seq<char>,
    /// The names of the multiplexer's sessions.
    pub sessions: Set<Seq<char>>,
    /// The paths that exist.
    pub files: Set<Seq<char>>,
    /// The user's configuration directory, where it can be determined.
    pub config: Option<Seq<char>>,
}

/// What a multiplexer that works as documented answers to a request, and the sessions that
/// it has afterwards. A session is created unless the name is taken; keys can be sent to an
/// existing session only.
pub open spec fn served(sessions: Set<Seq<char>>, request: RequestView) -> (
    Set<Seq<char>>,
    Option<i32>,
) {
    match request {
        RequestView::HasSession { name } => (
            sessions,
            if sessions.contains(name) {
                Some(0i32)
            } else {
                Some(1i32)
            },
        ),
        RequestView::NewSession { name, directory } => if sessions.contains(name) {
            (sessions, Some(1i32))
        } else {
            (sessions.insert(name), Some(0i32))
        },
        RequestView::SendKeys { session, command } => (
            sessions,
            if sessions.contains(session) {
                Some(0i32)
            } else {
                Some(1i32)
            },
        ),
        _ => (sessions, Some(0i32)),
    }
}

/// How the world answers an action, and what it is afterwards. Directories and files are
/// written without error.
pub open spec fn respond(world: World, action: ActionView) -> (World, EventView) {
    match action {
        ActionView::ReadVariable { name } => (
            world,
            EventView::Variable(
                if world.variables.contains_key(name) {
                    Some(world.variables[name])
                } else {
                    None
                },
            ),
        ),
        ActionView::ListDirectory { root } => (
            world,
            EventView::Listing(
                if world.listings.contains_key(root) {
                    world.listings[root]
                } else {
                    ListingView::NotADirectory
                },
            ),
        ),
        ActionView::Pick { arguments, input } => (world, EventView::Picked(world.picked)),
        ActionView::Multiplexer { request } => (
            World { sessions: served(world.sessions, request).0, ..world },
            EventView::Exited(served(world.sessions, request).1),
        ),
        ActionView::ProbeFile { path } => (world, EventView::Probed(world.files.contains(path))),
        ActionView::CreateDirectory { path } => (world, EventView::Completed(None)),
        ActionView::WriteFile { path, contents } => (
            World { files: world.files.insert(path), ..world },
            EventView::Completed(None),
        ),
        ActionView::Finish { outcome } => (world, EventView::Completed(None)),
    }
}

/// A run: the actions that were performed, in order, the world that they left, and how the
/// operation ended, if it did.
pub struct Run {
    pub actions: Seq<ActionView>,
    pub world: World,
    pub outcome: Option<OutcomeView>,
}

/// The run that starts with `step` in `world` and takes at most `limit` actions.
pub open spec fn run(step: StepView, world: World, limit: nat) -> Run
    decreases limit,
{
    match step.action {
        ActionView::Finish { outcome } => Run {
            actions: Seq::empty(),
            world,
            outcome: Some(outcome),
        },
        _ => if limit == 0 {
            Run { actions: Seq::empty(), world, outcome: None }
        } else {
            let (changed, event) = respond(world, step.action);
            let rest = run(transition(step.state, event, world.config), changed, (limit - 1) as nat);
            Run {
                actions: seq![step.action] + rest.actions,
                world: rest.world,
                outcome: rest.outcome,
            }
        },
    }
}

/// Whether the action asks the multiplexer to create a session.
pub open spec fn creates_session(action: ActionView) -> bool {
    action matches ActionView::Multiplexer { request } && request is NewSession
}

/// Whether the action types a command into a session.
pub open spec fn injects_script(action: ActionView) -> bool {
    action matches ActionView::Multiplexer { request } && request is SendKeys
}

/// Whether the action writes a file.
pub open spec fn writes_file(action: ActionView) -> bool {
    action is WriteFile
}

/// How often sessions were created, scripts were injected and files were written.
pub struct Tally {
    pub creations: nat,
    pub injections: nat,
    pub writes: nat,
}

/// The tally with `action` counted in.
pub open spec fn counted(action: ActionView, tally: Tally) -> Tally {
    Tally {
        creations: tally.creations + if creates_session(action) {
            1nat
        } else {
            0nat
        },
        injections: tally.injections + if injects_script(action) {
            1nat
        } else {
            0nat
        },
        writes: tally.writes + if writes_file(action) {
            1nat
        } else {
            0nat
        },
    }
}

/// The tally of some actions.
pub open spec fn tally(actions: Seq<ActionView>) -> Tally
    decreases actions.len(),
{
    if actions.len() == 0 {
        Tally { creations: 0, injections: 0, writes: 0 }
    } else {
        counted(actions.first(), tally(actions.drop_first()))
    }
}

/// A run that starts with the last step has nothing to do.
pub proof fn lemma_run_ends(step: StepView, world: World, limit: nat)
    requires
        step.action is Finish,
    ensures
        run(step, world, limit).actions == Seq::<ActionView>::empty(),
        run(step, world, limit).world == world,
        run(step, world, limit).outcome == Some(step.action->outcome),
        tally(run(step, world, limit).actions) == (Tally { creations: 0, injections: 0, writes: 0 }),
{
}

/// With an action performed, a run goes on with the step that follows.
pub proof fn lemma_run_unfolds(step: StepView, world: World, limit: nat)
    requires
        limit > 0,
        !(step.action is Finish),
    ensures
        ({
            let (changed, event) = respond(world, step.action);
            let rest = run(transition(step.state, event, world.config), changed, (limit - 1) as nat);
            let whole = run(step, world, limit);
            &&& whole.actions == seq![step.action] + rest.actions
            &&& whole.world == rest.world
            &&& whole.outcome == rest.outcome
            &&& tally(whole.actions) == counted(step.action, tally(rest.actions))
        }),
{
    let (changed, event) = respond(world, step.action);
    let rest = run(transition(step.state, event, world.config), changed, (limit - 1) as nat);
    assert((seq![step.action] + rest.actions).drop_first() =~= rest.actions);
}

/// Connecting to a session changes nothing in the world: the marker variable is read and
/// the client is attached or switched.
pub proof fn lemma_connecting(session: Seq<char>, world: World, limit: nat)
    requires
        limit >= 2,
    ensures
        run(connecting(session), world, limit).world == world,
        run(connecting(session), world, limit).outcome == Some(OutcomeView::Success),
        tally(run(connecting(session), world, limit).actions) == (Tally {
            creations: 0,
            injections: 0,
            writes: 0,
        }),
{
    let first = connecting(session);
    lemma_run_unfolds(first, world, limit);
    let (w1, e1) = respond(world, first.action);
    let second = transition(first.state, e1, world.config);
    assert(w1 == world);
    lemma_run_unfolds(second, w1, (limit - 1) as nat);
    let (w2, e2) = respond(w1, second.action);
    assert(w2.sessions == world.sessions);
    assert(w2 == world);
    lemma_run_ends(transition(second.state, e2, w1.config), w2, (limit - 2) as nat);
}

/// Injecting the bootstrap command counts as one injection; the session is connected to
/// where it took the command.
pub proof fn lemma_injecting(session: Seq<char>, script: Seq<char>, world: World, limit: nat)
    requires
        limit >= 3,
    ensures
        run(injecting(session, script), world, limit).world == world,
        run(injecting(session, script), world, limit).outcome == Some(
            if world.sessions.contains(session) {
                OutcomeView::Success
            } else {
                OutcomeView::Abort(Fatal::ScriptNotRun)
            },
        ),
        tally(run(injecting(session, script), world, limit).actions) == (Tally {
            creations: 0,
            injections: 1,
            writes: 0,
        }),
{
    let first = injecting(session, script);
    lemma_run_unfolds(first, world, limit);
    let (w1, e1) = respond(world, first.action);
    assert(w1.sessions == world.sessions);
    assert(w1 == world);
    let second = transition(first.state, e1, world.config);
    if world.sessions.contains(session) {
        assert(second == connecting(session));
        lemma_connecting(session, world, (limit - 1) as nat);
    } else {
        lemma_run_ends(second, world, (limit - 1) as nat);
    }
}

/// Where the script of a new session comes from. The project's script is used where it
/// exists, then the user's; where both are missing, the user's script is written from the
/// template, which is the only file that is ever written. No session is created on the way,
/// and the script is injected at most once.
pub proof fn lemma_resolving(session: Seq<char>, directory: Seq<char>, world: World, limit: nat)
    requires
        limit >= 7,
    ensures
        ({
            let done = run(resolving(session, directory), world, limit);
            let local = world.files.contains(local_script(directory));
            &&& done.world.sessions == world.sessions
            &&& done.world.config == world.config
            &&& tally(done.actions).creations == 0
            &&& tally(done.actions).injections <= 1
            &&& local ==> done.world == world && tally(done.actions).writes == 0
            &&& !local && world.config is None ==> {
                &&& done.world == world
                &&& tally(done.actions).writes == 0
                &&& tally(done.actions).injections == 0
                &&& done.outcome == Some(OutcomeView::Abort(Fatal::NoConfigDirectory))
            }
            &&& !local && world.config is Some ==> {
                let fallback = fallback_script(world.config->0);
                if world.files.contains(fallback) {
                    done.world == world && tally(done.actions).writes == 0
                } else {
                    &&& done.world.files == world.files.insert(fallback)
                    &&& tally(done.actions).writes == 1
                    &&& done.actions.contains(
                        ActionView::WriteFile { path: fallback, contents: TEMPLATE@ },
                    )
                }
            }
            &&& !(!local && world.config is None) ==> done.outcome == Some(
                if world.sessions.contains(session) {
                    OutcomeView::Success
                } else {
                    OutcomeView::Abort(Fatal::ScriptNotRun)
                },
            )
        }),
{
    let first = resolving(session, directory);
    let local = world.files.contains(local_script(directory));
    lemma_run_unfolds(first, world, limit);
    let (w1, e1) = respond(world, first.action);
    assert(w1 == world);
    let second = transition(first.state, e1, world.config);
    let left = (limit - 1) as nat;
    if local {
        assert(second == injecting(session, local_script(directory)));
        lemma_injecting(session, local_script(directory), world, left);
    } else if world.config is None {
        lemma_run_ends(second, world, left);
    } else {
        let fallback = fallback_script(world.config->0);
        lemma_run_unfolds(second, world, left);
        let (w2, e2) = respond(world, second.action);
        assert(w2 == world);
        let third = transition(second.state, e2, world.config);
        let left = (limit - 2) as nat;
        if world.files.contains(fallback) {
            assert(third == injecting(session, fallback));
            lemma_injecting(session, fallback, world, left);
        } else {
            lemma_run_unfolds(third, world, left);
            let (w3, e3) = respond(world, third.action);
            assert(w3 == world);
            let fourth = transition(third.state, e3, world.config);
            lemma_run_unfolds(fourth, world, (limit - 3) as nat);
            let (w4, e4) = respond(world, fourth.action);
            let fifth = transition(fourth.state, e4, world.config);
            assert(fourth.action == ActionView::WriteFile { path: fallback, contents: TEMPLATE@ });
            assert(w4.files == world.files.insert(fallback));
            assert(fifth == injecting(session, fallback));
            lemma_injecting(session, fallback, w4, (limit - 4) as nat);
            let done = run(first, world, limit);
            assert(done.actions[3] == fourth.action);
        }
    }
}

/// Attaching to a directory from the query of its session on. A session that exists is
/// connected to as it is. A session that does not exist is created once and gets its script
/// at most once; afterwards it exists.
pub proof fn lemma_querying(session: Seq<char>, directory: Seq<char>, world: World, limit: nat)
    requires
        limit >= 9,
    ensures
        ({
            let done = run(querying(session, directory), world, limit);
            let counts = tally(done.actions);
            &&& done.world.config == world.config
            &&& world.sessions.contains(session) ==> {
                &&& done.world == world
                &&& done.outcome == Some(OutcomeView::Success)
                &&& counts == (Tally { creations: 0, injections: 0, writes: 0 })
            }
            &&& !world.sessions.contains(session) ==> {
                &&& done.world.sessions == world.sessions.insert(session)
                &&& counts.creations == 1
                &&& counts.injections <= 1
                &&& counts.writes <= 1
            }
        }),
{
    let first = querying(session, directory);
    lemma_run_unfolds(first, world, limit);
    let (w1, e1) = respond(world, first.action);
    assert(w1.sessions == world.sessions);
    assert(w1 == world);
    let second = transition(first.state, e1, world.config);
    if world.sessions.contains(session) {
        assert(second == connecting(session));
        lemma_connecting(session, world, (limit - 1) as nat);
    } else {
        lemma_run_unfolds(second, world, (limit - 1) as nat);
        let (w2, e2) = respond(world, second.action);
        assert(w2.sessions == world.sessions.insert(session));
        let third = transition(second.state, e2, world.config);
        assert(third == resolving(session, directory));
        lemma_resolving(session, directory, w2, (limit - 2) as nat);
    }
}

/// Launching is idempotent. Where attaching to a directory has succeeded, attaching to the
/// same directory again succeeds too, creates no session and injects no bootstrap script:
/// over both runs the session is created at most once and its script is run at most once.
pub proof fn law_launch_is_idempotent(directory: Seq<char>, world: World, limit: nat)
    requires
        limit >= 9,
        session_name_of(directory) is Some,
    ensures
        ({
            let session = session_name_of(directory)->0;
            let first = run(querying(session, directory), world, limit);
            let second = run(querying(session, directory), first.world, limit);
            &&& tally(first.actions).creations + tally(second.actions).creations <= 1
            &&& tally(first.actions).injections + tally(second.actions).injections <= 1
            &&& tally(first.actions).creations == 1 <==> !world.sessions.contains(session)
            &&& first.outcome == Some(OutcomeView::Success) ==> {
                &&& second.outcome == Some(OutcomeView::Success)
                &&& second.world == first.world
            }
        }),
{
    let session = session_name_of(directory)->0;
    lemma_querying(session, directory, world, limit);
    let first = run(querying(session, directory), world, limit);
    lemma_querying(session, directory, first.world, limit);
}

/// The template is written once. Where a new session finds neither the project's script nor
/// the user's, exactly one file is written: the user's script, from the template. Resolving
/// the script again, with the same inputs, writes nothing.
pub proof fn law_template_is_written_once(
    session: Seq<char>,
    directory: Seq<char>,
    world: World,
    limit: nat,
)
    requires
        limit >= 7,
        world.config is Some,
        !world.files.contains(local_script(directory)),
        !world.files.contains(fallback_script(world.config->0)),
    ensures
        ({
            let fallback = fallback_script(world.config->0);
            let first = run(resolving(session, directory), world, limit);
            let second = run(resolving(session, directory), first.world, limit);
            &&& tally(first.actions).writes == 1
            &&& first.actions.contains(ActionView::WriteFile { path: fallback, contents: TEMPLATE@ })
            &&& first.world.files == world.files.insert(fallback)
            &&& tally(second.actions).writes == 0
            &&& second.world == first.world
        }),
{
    lemma_resolving(session, directory, world, limit);
    let first = run(resolving(session, directory), world, limit);
    lemma_resolving(session, directory, first.world, limit);
}

/// With no roots in the search path and no selection, attaching ends in success after the
/// user was asked to pick from nothing: no session is created, nothing is written, and the
/// world is as it was.
pub proof fn law_nothing_to_pick(query: Seq<char>, world: World, limit: nat)
    requires
        limit >= 2,
        world.variables.contains_key("ORBIT_PATH"@) ==> world.variables["ORBIT_PATH"@].len() == 0,
        world.picked.len() == 0,
    ensures
        ({
            let done = run(begun(query), world, limit);
            &&& done.outcome == Some(OutcomeView::Success)
            &&& done.world == world
            &&& done.actions == seq![
                ActionView::ReadVariable { name: "ORBIT_PATH"@ },
                ActionView::Pick {
                    arguments: picker_arguments(query),
                    input: Seq::<char>::empty(),
                },
            ]
            &&& tally(done.actions) == (Tally { creations: 0, injections: 0, writes: 0 })
        }),
{
    let first = begun(query);
    lemma_run_unfolds(first, world, limit);
    let (w1, e1) = respond(world, first.action);
    assert(w1 == world);
    let second = transition(first.state, e1, world.config);
    assert(second == picking(query, Seq::<Seq<char>>::empty()));
    lemma_run_unfolds(second, world, (limit - 1) as nat);
    let (w2, e2) = respond(world, second.action);
    assert(w2 == world);
    lemma_run_ends(transition(second.state, e2, world.config), world, (limit - 2) as nat);
    let done = run(first, world, limit);
    assert(done.actions =~= seq![first.action, second.action]);
}

/// The candidates that the listings of some roots give: the subdirectories of the first
/// root, then those of the second, and so on.
pub open spec fn candidates_of(listings: Seq<Seq<EntryView>>) -> Seq<Seq<char>>
    decreases listings.len(),
{
    if listings.len() == 0 {
        Seq::empty()
    } else {
        subdirectories(listings.first()) + candidates_of(listings.drop_first())
    }
}

/// The step that is reached from `step` when one root after the other is listed and gives
/// the entries of `listings`.
pub open spec fn listed(step: StepView, listings: Seq<Seq<EntryView>>) -> StepView
    decreases listings.len(),
{
    if listings.len() == 0 {
        step
    } else {
        listed(
            transition(
                step.state,
                EventView::Listing(ListingView::Entries(listings.first())),
                None,
            ),
            listings.drop_first(),
        )
    }
}

/// Listing the roots that are left adds their subdirectories to the candidates, root by
/// root, and then the user is asked to pick.
pub proof fn lemma_scanning(
    query: Seq<char>,
    roots: Seq<Seq<char>>,
    candidates: Seq<Seq<char>>,
    listings: Seq<Seq<EntryView>>,
)
    requires
        listings.len() == roots.len(),
    ensures
        listed(scanning(query, roots, candidates), listings) == picking(
            query,
            candidates + candidates_of(listings),
        ),
    decreases listings.len(),
{
    if listings.len() == 0 {
        assert(candidates + candidates_of(listings) =~= candidates);
    } else {
        let found = candidates + subdirectories(listings.first());
        lemma_scanning(query, roots.drop_first(), found, listings.drop_first());
        assert(found + candidates_of(listings.drop_first()) =~= candidates + candidates_of(
            listings,
        ));
    }
}

/// The candidates follow the roots. Where every root of the search path can be listed, the
/// user is asked to pick from exactly the subdirectories of the roots, in the order of the
/// roots; the order within a root is that of its listing. A search path that is not set
/// lists no root, and the user is asked at once to pick from nothing.
pub proof fn law_candidates_follow_the_roots(
    query: Seq<char>,
    value: Option<Seq<char>>,
    listings: Seq<Seq<EntryView>>,
)
    requires
        value is Some ==> listings.len() == roots(value->0).len(),
        value is None ==> listings.len() == 0,
    ensures
        listed(after_search_path(query, value), listings) == picking(
            query,
            candidates_of(listings),
        ),
        value is None ==> after_search_path(query, value) == picking(query, Seq::empty()),
{
    let search_path = match value {
        Some(text) => text,
        None => Seq::empty(),
    };
    lemma_scanning(query, roots(search_path), Seq::empty(), listings);
    assert(Seq::<Seq<char>>::empty() + candidates_of(listings) =~= candidates_of(listings));
}

} // verus!
