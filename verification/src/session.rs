use vstd::prelude::*;
use crate::dispatch::{device_address, describes_mount, dispatch, mount_point, Action, MountPoint};
use crate::filter::{eligible, is_offering, offered_indices};
use crate::partition::Partition;
use crate::render::{label_of, labels_match, render_options};
use crate::select::{first_named, names_option, resolve_answer};

verus! {

/// Why a session ended without an action.
#[derive(Debug, Clone, Copy, PartialEq, Eq, Structural)]
pub enum Failure {
    /// No partition may be offered.
    NoDrives,
    /// The answer names none of the options.
    NotInList,
    /// The event does not answer what the session asked for.
    Unexpected,
}

/// Where a session stands.
#[derive(Debug, PartialEq, Eq)]
pub enum State {
    /// Waiting for the partitions that the machine lists.
    Listing { no_filter: bool },
    /// Waiting for the choice among `labels`; `labels[k]` is the label of
    /// `parts[indices[k]]`.
    Choosing { parts: Vec<Partition>, indices: Vec<usize>, labels: Vec<String> },
    /// Waiting for the directory at which to mount `device`.
    Locating { device: String },
    /// Nothing is left to do.
    Done,
}

/// What came back from outside.
#[derive(Debug, PartialEq, Eq)]
pub enum Event {
    /// The machine's partitions.
    Listed { parts: Vec<Partition> },
    /// The text that a picker handed back.
    AnswerText { text: String },
    /// The position that a menu handed back.
    AnswerIndex { index: usize },
    /// The directory that the user named.
    Destination { text: String },
}

/// What is to be done outside next.
#[derive(Debug, Clone, PartialEq, Eq)]
pub enum Request {
    /// Let the user choose among the labels of the new state.
    Choose,
    /// Ask the user for the directory to mount at.
    AskDestination,
    /// Unmount what is mounted at `path`, and end.
    Unmount { path: String },
    /// Mount as `mount_point` says, and end.
    Mount { mount_point: MountPoint },
    /// Report the failure, and end with an error.
    Fail { failure: Failure },
}

/// Whether a session ends here with the given failure.
pub open spec fn fails_with(next: State, request: Request, failure: Failure) -> bool {
    next is Done && request == (Request::Fail { failure })
}

/// What follows the choice of the option at `k`: a mounted partition is
/// unmounted at once, for one that is not mounted the destination is asked
/// for, and a position that names no option is a failure.
pub open spec fn choice_outcome(
    parts: Seq<Partition>,
    indices: Seq<usize>,
    k: int,
    next: State,
    request: Request,
) -> bool {
    if 0 <= k < indices.len() && indices[k] < parts.len() {
        let p = parts[indices[k] as int];
        if p.is_mounted() {
            &&& next is Done
            &&& request matches Request::Unmount { path }
            &&& path@ == p.mountpoint@
        } else {
            &&& next matches State::Locating { device }
            &&& device@ == device_address(p.name@)
            &&& request is AskDestination
        }
    } else {
        fails_with(next, request, Failure::NotInList)
    }
}

/// What follows the list of partitions: a failure where none may be offered,
/// else the choice among the labels of those that may.
pub open spec fn listing_outcome(
    parts: Vec<Partition>,
    no_filter: bool,
    next: State,
    request: Request,
) -> bool {
    if forall|i: int| 0 <= i < parts@.len() ==> !eligible(#[trigger] parts@[i], no_filter) {
        fails_with(next, request, Failure::NoDrives)
    } else {
        &&& next matches State::Choosing { parts: kept, indices, labels }
        &&& kept == parts
        &&& is_offering(parts@, no_filter, indices@)
        &&& labels_match(parts@, indices@, labels@)
        &&& labels@.len() > 0
        &&& request is Choose
    }
}

/// The step relation of a session: which state and request follow a state
/// and an event.
pub open spec fn follows(state: State, event: Event, next: State, request: Request) -> bool {
    match (state, event) {
        (State::Listing { no_filter }, Event::Listed { parts }) => listing_outcome(
            parts,
            no_filter,
            next,
            request,
        ),
        (State::Choosing { parts, indices, labels }, Event::AnswerText { text }) => {
            if exists|k: int| names_option(labels@, k, text@) {
                exists|k: int|
                    first_named(labels@, k, text@) && choice_outcome(
                        parts@,
                        indices@,
                        k,
                        next,
                        request,
                    )
            } else {
                fails_with(next, request, Failure::NotInList)
            }
        },
        (State::Choosing { parts, indices, labels }, Event::AnswerIndex { index }) => choice_outcome(
            parts@,
            indices@,
            index as int,
            next,
            request,
        ),
        (State::Locating { device }, Event::Destination { text }) => {
            &&& next is Done
            &&& request matches Request::Mount { mount_point }
            &&& describes_mount(mount_point, device@, text@)
        },
        _ => fails_with(next, request, Failure::Unexpected),
    }
}

/// Opens a session.
pub fn start(no_filter: bool) -> (r: State)
    ensures
        r == (State::Listing { no_filter }),
{
    State::Listing { no_filter }
}

/// Takes the list of partitions and decides what to offer.
pub fn offer(parts: Vec<Partition>, no_filter: bool) -> (r: (State, Request))
    ensures
        listing_outcome(parts, no_filter, r.0, r.1),
{
    let indices = offered_indices(&parts, no_filter);
    if indices.len() == 0 {
        return (State::Done, Request::Fail { failure: Failure::NoDrives });
    }
    let labels = render_options(&parts, &indices);
    proof {
        let first = indices@[0] as int;
        assert(eligible(parts@[first], no_filter));
    }
    (State::Choosing { parts, indices, labels }, Request::Choose)
}

/// Takes the position of the chosen option and decides the action.
pub fn choose_option(parts: &Vec<Partition>, indices: &Vec<usize>, k: usize) -> (r: (State, Request))
    ensures
        choice_outcome(parts@, indices@, k as int, r.0, r.1),
{
    if k >= indices.len() || indices[k] >= parts.len() {
        return (State::Done, Request::Fail { failure: Failure::NotInList });
    }
    match dispatch(&parts[indices[k]]) {
        Action::Unmount { path } => (State::Done, Request::Unmount { path }),
        Action::Mount { device } => (State::Locating { device }, Request::AskDestination),
    }
}

/// Advances a session by one event.
pub fn step(state: State, event: Event) -> (r: (State, Request))
    ensures
        follows(state, event, r.0, r.1),
{
    match (state, event) {
        (State::Listing { no_filter }, Event::Listed { parts }) => offer(parts, no_filter),
        (State::Choosing { parts, indices, labels }, Event::AnswerText { text }) => {
            match resolve_answer(&labels, text.as_str()) {
                Some(k) => {
                    let r = choose_option(&parts, &indices, k);
                    assert(names_option(labels@, k as int, text@));
                    r
                },
                None => (State::Done, Request::Fail { failure: Failure::NotInList }),
            }
        },
        (State::Choosing { parts, indices, labels }, Event::AnswerIndex { index }) => choose_option(
            &parts,
            &indices,
            index,
        ),
        (State::Locating { device }, Event::Destination { text }) => (
            State::Done,
            Request::Mount { mount_point: mount_point(device, text) },
        ),
        _ => (State::Done, Request::Fail { failure: Failure::Unexpected }),
    }
}

/// A choice among the options of a listing never fails, and acts on the
/// partition that the chosen label was rendered from, which is one that may
/// be offered: it is unmounted if it is mounted, and else a destination is
/// asked for.
pub proof fn lemma_choice_among_offered_acts(
    parts: Vec<Partition>,
    no_filter: bool,
    indices: Vec<usize>,
    labels: Vec<String>,
    k: int,
    next: State,
    request: Request,
)
    requires
        listing_outcome(parts, no_filter, State::Choosing { parts, indices, labels }, Request::Choose),
        0 <= k < labels@.len(),
        choice_outcome(parts@, indices@, k, next, request),
    ensures
        !(request is Fail),
        eligible(parts@[indices@[k] as int], no_filter),
        labels@[k]@ == label_of(parts@[indices@[k] as int]),
        parts@[indices@[k] as int].is_mounted() <==> request is Unmount,
        !parts@[indices@[k] as int].is_mounted() <==> request is AskDestination,
{
}

} // verus!
