//! The course of one enumeration, as steps between the calls into the foreign
//! library.
//!
//! An enumeration makes two foreign calls: one that creates the device list,
//! and one that releases it. Whoever makes the calls tells each outcome to
//! `list_step`, which decides what is to be done next.

use vstd::prelude::*;

use crate::device::{DeviceInfo, DeviceInfoView};
use crate::error::CallFailure;
use crate::list::{
    all_readable, collect_list, list_is_readable, list_views, owned_list, CreateListOptions,
};
use crate::raw::{list_view, RawCreateListOptions, RawDeviceInfo, RawNode, WDI_SUCCESS};

verus! {

/// Where an enumeration stands.
#[derive(PartialEq, Eq)]
pub enum ListState {
    /// Nothing has been asked of the foreign library.
    Idle,
    /// The foreign library has been asked for the device list.
    Enumerating,
    /// The foreign list has been copied to these records and is to be
    /// released.
    Releasing(Vec<DeviceInfo>),
    /// The enumeration has ended.
    Done,
}

/// What happened to an enumeration.
#[derive(PartialEq, Eq)]
pub enum ListEvent<'a> {
    /// The caller asked for an enumeration with these options.
    Begin(CreateListOptions),
    /// The foreign enumeration call returned this status, and left this
    /// behind the head pointer.
    Enumerated { status: i32, head: Option<Box<RawDeviceInfo<'a>>> },
    /// The foreign release call returned this status.
    Released { status: i32 },
}

/// What is to be done next for an enumeration.
#[derive(PartialEq, Eq)]
pub enum ListAction {
    /// Call the foreign enumeration with these options and a null head
    /// pointer.
    Enumerate(RawCreateListOptions),
    /// Release the whole foreign list with one call.
    Release,
    /// Hand this to the caller: nothing is left to do.
    Finish(Result<Vec<DeviceInfo>, CallFailure>),
}

/// Where an enumeration stands, as plain values.
pub enum ListStateView {
    Idle,
    Enumerating,
    Releasing(Seq<DeviceInfoView>),
    Done,
}

/// What happened to an enumeration, as plain values.
pub enum ListEventView {
    Begin(CreateListOptions),
    Enumerated { status: i32, nodes: Seq<RawNode> },
    Released { status: i32 },
}

/// What is to be done next for an enumeration, as plain values.
pub enum ListActionView {
    Enumerate(RawCreateListOptions),
    Release,
    Finish(Result<Seq<DeviceInfoView>, CallFailure>),
}

impl View for ListState {
    type V = ListStateView;

    open spec fn view(&self) -> ListStateView {
        match self {
            ListState::Idle => ListStateView::Idle,
            ListState::Enumerating => ListStateView::Enumerating,
            ListState::Releasing(list) => ListStateView::Releasing(list_views(list@)),
            ListState::Done => ListStateView::Done,
        }
    }
}

impl<'a> View for ListEvent<'a> {
    type V = ListEventView;

    open spec fn view(&self) -> ListEventView {
        match self {
            ListEvent::Begin(options) => ListEventView::Begin(*options),
            ListEvent::Enumerated { status, head } => ListEventView::Enumerated {
                status: *status,
                nodes: list_view(*head),
            },
            ListEvent::Released { status } => ListEventView::Released { status: *status },
        }
    }
}

impl View for ListAction {
    type V = ListActionView;

    open spec fn view(&self) -> ListActionView {
        match self {
            ListAction::Enumerate(raw) => ListActionView::Enumerate(*raw),
            ListAction::Release => ListActionView::Release,
            ListAction::Finish(Ok(list)) => ListActionView::Finish(Ok(list_views(list@))),
            ListAction::Finish(Err(failure)) => ListActionView::Finish(Err(*failure)),
        }
    }
}

/// The step that an enumeration in `state` takes on `event`: where it stands
/// afterwards, and what is to be done next. `None` where the event has no
/// place in that state.
///
/// * Asked to begin, an idle enumeration has the foreign enumeration called
///   with the options as the foreign library lays them out.
/// * When that call returns a failure, the enumeration ends with it, and
///   nothing is read or released. When it returns success, the list is
///   copied in its order and is then to be released; a success that leaves
///   no list, or a node that cannot be copied, has no place.
/// * When the release returns a failure, the enumeration ends with it and
///   the records are dropped; else it ends with the records.
pub open spec fn spec_list_step(state: ListStateView, event: ListEventView) -> Option<
    (ListStateView, ListActionView),
> {
    match (state, event) {
        (ListStateView::Idle, ListEventView::Begin(options)) => Some(
            (ListStateView::Enumerating, ListActionView::Enumerate(options.spec_as_raw())),
        ),
        (ListStateView::Enumerating, ListEventView::Enumerated { status, nodes }) => {
            match CallFailure::spec_from_status(status) {
                Some(failure) => Some((ListStateView::Done, ListActionView::Finish(Err(failure)))),
                None => if nodes.len() > 0 && all_readable(nodes) {
                    Some((ListStateView::Releasing(owned_list(nodes)), ListActionView::Release))
                } else {
                    None
                },
            }
        },
        (ListStateView::Releasing(list), ListEventView::Released { status }) => {
            match CallFailure::spec_from_status(status) {
                Some(failure) => Some((ListStateView::Done, ListActionView::Finish(Err(failure)))),
                None => Some((ListStateView::Done, ListActionView::Finish(Ok(list)))),
            }
        },
        _ => None,
    }
}

/// Whether `event` has a place in `state`, so that `list_step` can take it.
pub fn list_accepts(state: &ListState, event: &ListEvent<'_>) -> (r: bool)
    ensures
        r == spec_list_step(state@, event@).is_some(),
{
    match (state, event) {
        (ListState::Idle, ListEvent::Begin(_)) => true,
        (ListState::Enumerating, ListEvent::Enumerated { status, head }) => {
            CallFailure::from_status(*status).is_some() || (head.is_some() && list_is_readable(
                head,
            ))
        },
        (ListState::Releasing(_), ListEvent::Released { .. }) => true,
        _ => false,
    }
}

/// Takes one step of an enumeration: consumes where it stood and what
/// happened, and gives where it stands now and what is to be done next.
pub fn list_step(state: ListState, event: ListEvent<'_>) -> (r: (ListState, ListAction))
    requires
        spec_list_step(state@, event@).is_some(),
    ensures
        spec_list_step(state@, event@) == Some((r.0@, r.1@)),
{
    match (state, event) {
        (ListState::Idle, ListEvent::Begin(options)) => (
            ListState::Enumerating,
            ListAction::Enumerate(options.as_raw()),
        ),
        (ListState::Enumerating, ListEvent::Enumerated { status, head }) => {
            match CallFailure::from_status(status) {
                Some(failure) => (ListState::Done, ListAction::Finish(Err(failure))),
                None => (ListState::Releasing(collect_list(&head)), ListAction::Release),
            }
        },
        (ListState::Releasing(list), ListEvent::Released { status }) => {
            match CallFailure::from_status(status) {
                Some(failure) => (ListState::Done, ListAction::Finish(Err(failure))),
                None => (ListState::Done, ListAction::Finish(Ok(list))),
            }
        },
        _ => vstd::pervasive::unreached(),
    }
}

/// The course of an enumeration that starts in `state` and takes `events`
/// one after the other: where it stands at the end, and what it asked for
/// on the way, one action for each event. `None` where one of the events has
/// no place when it comes.
pub open spec fn spec_list_run(state: ListStateView, events: Seq<ListEventView>) -> Option<
    (ListStateView, Seq<ListActionView>),
>
    decreases events.len(),
{
    if events.len() == 0 {
        Some((state, Seq::empty()))
    } else {
        match spec_list_step(state, events[0]) {
            Some((next, action)) => match spec_list_run(next, events.drop_first()) {
                Some((end, actions)) => Some((end, seq![action] + actions)),
                None => None,
            },
            None => None,
        }
    }
}

/// Whatever events an enumeration takes from its idle state, it asks for at
/// most three things, and always in this order: the foreign enumeration,
/// then either the end with a failure or the release of the list, then the
/// end.
///
/// * The foreign list is released at most once, and only as the second
///   action: after the enumeration call gave a list, and after that list
///   was copied.
/// * Where the enumeration call returned success, the release is asked for:
///   no list is left behind.
/// * An enumeration ends with records only after the release, and the
///   records are the copies of the list's nodes, in the order of the list.
/// * An enumeration that ends with a failure ends with the failure of the
///   call that returned last: of the enumeration call as the second action,
///   of the release as the third.
/// * After the end, no event has a place.
pub proof fn lemma_list_released_once(events: Seq<ListEventView>)
    requires
        spec_list_run(ListStateView::Idle, events).is_some(),
    ensures
        ({
            let (end, actions) = spec_list_run(ListStateView::Idle, events).unwrap();
            &&& events.len() <= 3
            &&& actions.len() == events.len()
            &&& forall|i: int| 0 <= i < actions.len() && actions[i] is Release ==> i == 1
            &&& (actions.len() >= 2 && actions[1] is Release) <==> (events.len() >= 2 && events[1]
                is Enumerated && events[1]->Enumerated_status == WDI_SUCCESS)
            &&& forall|i: int|
                0 <= i < actions.len() ==> (#[trigger] actions[i] matches ListActionView::Finish(
                    Ok(list),
                ) ==> i == 2 && actions[1] is Release && list == owned_list(
                    events[1]->Enumerated_nodes,
                ))
            &&& forall|i: int|
                0 <= i < actions.len() ==> (#[trigger] actions[i] matches ListActionView::Finish(
                    Err(failure),
                ) ==> (i == 1 && Some(failure) == CallFailure::spec_from_status(
                    events[1]->Enumerated_status,
                )) || (i == 2 && Some(failure) == CallFailure::spec_from_status(
                    events[2]->Released_status,
                )))
            &&& forall|i: int|
                0 <= i < actions.len() && actions[i] is Finish ==> i == actions.len() - 1
            &&& end is Done <==> (actions.len() >= 2 && actions.last() is Finish)
            &&& forall|event: ListEventView| end is Done ==> spec_list_step(end, event) is None
        }),
{
    reveal_with_fuel(spec_list_run, 5);
}

} // verus!
