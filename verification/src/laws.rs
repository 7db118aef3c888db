//! Laws of the core, proved over its model.
//!
//! The executable functions are specified by the functions of
//! [`crate::model`], so what is proved here of the model holds of every run
//! of the library.

use vstd::prelude::*;
use crate::action::ActionView;
use crate::action::NotificationView;
use crate::framing::lemma_split_resumes;
use crate::framing::split;
use crate::handle::SocketHandle;
use crate::handle::SocketKind;
use crate::model::after_action;
use crate::model::after_actions;
use crate::model::close_notification;
use crate::model::after_close;
use crate::model::after_connect;
use crate::model::after_open;
use crate::model::State;
use crate::objects::exposes;
use crate::objects::slot_of;
use crate::objects::ObjectView;

verus! {

/// One thing that can happen to the state between two moments.
pub enum Step {
    /// A script connects `target`, and the registry issues `handle`.
    Connect { target: SocketKind, handle: SocketHandle },
    /// A script closes `handle`.
    Close { handle: SocketHandle },
    /// The drain pass processes one action.
    Apply { action: ActionView },
    /// Scripts change their objects in any way: they read from a buffer,
    /// write to one, or create objects.
    Script { objects: Seq<ObjectView> },
}

/// Whether `step` can happen in `state`: the registry connects only an
/// object that has the socket state of its engine, and issues only a handle
/// that is not live and carries the current generation.
pub open spec fn possible(state: State, step: Step) -> bool {
    match step {
        Step::Connect { target, handle } => exposes(state.objects, target) && state.admits(handle),
        _ => true,
    }
}

/// Whether `step` leaves every handle slot to the core: a script may change
/// buffers and timeouts and create objects, but not the slots.
pub open spec fn keeps_slots(state: State, step: Step) -> bool {
    match step {
        Step::Script { objects } => forall|target: SocketKind| #[trigger]
            exposes(state.objects, target) ==> slot_of(objects, target) == slot_of(
                state.objects,
                target,
            ),
        _ => true,
    }
}

/// The state after `step`.
pub open spec fn stepped(state: State, step: Step) -> State {
    match step {
        Step::Connect { target, handle } => after_connect(state, target, handle),
        Step::Close { handle } => after_close(state, handle),
        Step::Apply { action } => after_action(state, action).0,
        Step::Script { objects } => State {
            sockets: state.sockets,
            generation: state.generation,
            objects,
        },
    }
}

/// The state after `steps`, in order.
pub open spec fn run(state: State, steps: Seq<Step>) -> State
    decreases steps.len(),
{
    if steps.len() == 0 {
        state
    } else {
        stepped(run(state, steps.drop_last()), steps.last())
    }
}

/// Whether each of `steps` can happen when its turn comes.
pub open spec fn possible_run(state: State, steps: Seq<Step>) -> bool
    decreases steps.len(),
{
    steps.len() > 0 ==> possible_run(state, steps.drop_last()) && possible(
        run(state, steps.drop_last()),
        steps.last(),
    )
}

/// A handle that the registry issues is new: it is neither live nor out of
/// use for good.
pub proof fn law_issued_handle_is_new(state: State, handle: SocketHandle)
    requires
        state.admits(handle),
    ensures
        !state.sockets.dom().contains(handle),
        !state.retired(handle),
{
}

/// Closing a live handle puts it out of use for good.
pub proof fn law_close_retires(state: State, handle: SocketHandle)
    requires
        state.wf(),
        state.sockets.dom().contains(handle),
    ensures
        after_close(state, handle).wf(),
        after_close(state, handle).retired(handle),
{
}

/// No step breaks the invariant of the state or brings the generation
/// down, and a handle that is out of use for good stays so.
pub proof fn law_step_keeps_order(state: State, step: Step, handle: SocketHandle)
    requires
        state.wf(),
        possible(state, step),
    ensures
        stepped(state, step).wf(),
        state.generation <= stepped(state, step).generation,
        state.retired(handle) ==> stepped(state, step).retired(handle),
{
    match step {
        Step::Connect { target, handle: issued } => {
            assert(after_open(state, target, issued).wf());
            assert(state.retired(handle) ==> after_open(state, target, issued).retired(handle));
        },
        _ => {},
    }
}

/// The same for any number of steps.
pub proof fn law_run_keeps_order(state: State, steps: Seq<Step>, handle: SocketHandle)
    requires
        state.wf(),
        possible_run(state, steps),
    ensures
        run(state, steps).wf(),
        state.generation <= run(state, steps).generation,
        state.retired(handle) ==> run(state, steps).retired(handle),
    decreases steps.len(),
{
    if steps.len() > 0 {
        law_run_keeps_order(state, steps.drop_last(), handle);
        law_step_keeps_order(run(state, steps.drop_last()), steps.last(), handle);
    }
}

/// Once a live handle is closed it is never live again, whatever happens
/// afterwards and however often its slot is given to new connections.
pub proof fn law_closed_handle_stays_invalid(state: State, handle: SocketHandle, steps: Seq<Step>)
    requires
        state.wf(),
        state.sockets.dom().contains(handle),
        possible_run(after_close(state, handle), steps),
    ensures
        !run(after_close(state, handle), steps).sockets.dom().contains(handle),
{
    law_close_retires(state, handle);
    law_run_keeps_order(after_close(state, handle), steps, handle);
}

/// As long as scripts leave the handle slots alone, every live connection
/// stays the one that its object names in its slot.
pub proof fn law_step_keeps_binding(state: State, step: Step)
    requires
        state.bound(),
        possible(state, step),
        keeps_slots(state, step),
    ensures
        stepped(state, step).bound(),
{
    let after = stepped(state, step);
    assert forall|handle: SocketHandle| #[trigger]
        after.sockets.dom().contains(handle) implies slot_of(after.objects, after.sockets[handle])
        == Some(handle) by {
        match step {
            Step::Connect { target, handle: issued } => {
                if handle != issued {
                    assert(state.sockets.dom().contains(handle));
                }
            },
            Step::Close { handle: closing } => {
                assert(state.sockets.dom().contains(handle));
            },
            Step::Apply { action } => {
                assert(state.sockets.dom().contains(handle));
            },
            Step::Script { objects } => {
                assert(state.sockets.dom().contains(handle));
                assert(exposes(state.objects, state.sockets[handle]));
            },
        }
    }
}

/// While every live connection is the one that its object names, no two
/// live connections serve the same object.
pub proof fn law_one_connection_per_object(state: State, one: SocketHandle, other: SocketHandle)
    requires
        state.bound(),
        state.sockets.dom().contains(one),
        state.sockets.dom().contains(other),
        state.sockets[one] == state.sockets[other],
    ensures
        one == other,
{
}

/// When an object that holds a live handle is connected again, it gets
/// another handle; the one it held is gone, the new one is live and serves
/// the object, and the object's buffers are empty.
pub proof fn law_reconnect_displaces(
    state: State,
    target: SocketKind,
    held: SocketHandle,
    issued: SocketHandle,
)
    requires
        state.wf(),
        exposes(state.objects, target),
        slot_of(state.objects, target) == Some(held),
        state.sockets.dom().contains(held),
        state.sockets[held] == target,
        state.admits(issued),
    ensures
        issued != held,
        !after_connect(state, target, issued).sockets.dom().contains(held),
        after_connect(state, target, issued).sockets.dom().contains(issued),
        after_connect(state, target, issued).sockets[issued] == target,
        slot_of(after_connect(state, target, issued).objects, target) == Some(issued),
        after_connect(state, target, issued).objects[target.object() as int].read_buffer()
            == Seq::<u8>::empty(),
        after_connect(state, target, issued).objects[target.object() as int].write_buffer()
            == Seq::<u8>::empty(),
{
}

/// Closing a handle a second time changes nothing.
pub proof fn law_close_twice(state: State, handle: SocketHandle)
    ensures
        after_close(after_close(state, handle), handle) == after_close(state, handle),
{
}

/// A close action for a live handle does what a close by the script does,
/// and tells the object that was served.
pub proof fn law_close_action_closes(state: State, handle: SocketHandle)
    requires
        state.sockets.dom().contains(handle),
    ensures
        after_action(state, ActionView::Close(handle)).0 == after_close(state, handle),
        after_action(state, ActionView::Close(handle)).1 == seq![
            close_notification(state.sockets[handle]),
        ],
{
}

/// A close action for a handle that a script already closed changes
/// nothing and tells nothing.
pub proof fn law_close_then_close_action(state: State, handle: SocketHandle)
    ensures
        after_action(after_close(state, handle), ActionView::Close(handle)).0 == after_close(state, handle),
        after_action(after_close(state, handle), ActionView::Close(handle)).1 == Seq::<
            NotificationView,
        >::empty(),
{
}

/// Of two close actions for a live handle only the first is answered, with
/// one close notification, and a close by the script afterwards changes
/// nothing.
pub proof fn law_close_action_twice(state: State, handle: SocketHandle)
    requires
        state.sockets.dom().contains(handle),
    ensures
        after_actions(state, seq![ActionView::Close(handle), ActionView::Close(handle)]).0 == after_close(
            state,
            handle,
        ),
        after_actions(state, seq![ActionView::Close(handle), ActionView::Close(handle)]).1
            == seq![close_notification(state.sockets[handle])],
        after_close(after_action(state, ActionView::Close(handle)).0, handle) == after_close(state, handle),
{
    let close = ActionView::Close(handle);
    let twice = seq![close, close];
    let once = twice.drop_last();
    assert(once.drop_last() =~= Seq::<ActionView>::empty());
    assert(after_actions(state, once.drop_last()) == (state, Seq::<NotificationView>::empty()));
    assert(once.last() == close);
    assert(twice.last() == close);
    assert(after_actions(state, once).0 == after_close(state, handle));
    assert(after_actions(state, once).1 =~= seq![close_notification(state.sockets[handle])]);
    assert(after_actions(state, twice).1 =~= seq![close_notification(state.sockets[handle])]);
}

/// An action for a handle that is not live changes nothing and tells
/// nothing.
pub proof fn law_unknown_handle_is_dropped(state: State, action: ActionView)
    requires
        !state.sockets.dom().contains(action.handle()),
    ensures
        after_action(state, action).0 == state,
        after_action(state, action).1 == Seq::<NotificationView>::empty(),
{
}

/// Actions are processed in order: a snapshot in two parts gives what the
/// first part gives, followed by what the second part gives from there.
pub proof fn law_actions_in_order(state: State, first: Seq<ActionView>, second: Seq<ActionView>)
    ensures
        after_actions(state, first + second).0 == after_actions(
            after_actions(state, first).0,
            second,
        ).0,
        after_actions(state, first + second).1 == after_actions(state, first).1 + after_actions(
            after_actions(state, first).0,
            second,
        ).1,
    decreases second.len(),
{
    let middle = after_actions(state, first).0;
    if second.len() == 0 {
        assert(first + second =~= first);
        assert(after_actions(state, first).1 + after_actions(middle, second).1 =~= after_actions(
            state,
            first,
        ).1);
    } else {
        law_actions_in_order(state, first, second.drop_last());
        assert((first + second).drop_last() =~= first + second.drop_last());
        assert((first + second).last() == second.last());
        let before = after_actions(middle, second.drop_last());
        let step = after_action(before.0, second.last());
        assert(after_actions(state, first + second).1 =~= after_actions(state, first).1 + (before.1
            + step.1));
    }
}

/// A snapshot of one action is that action.
pub proof fn law_single_action(state: State, action: ActionView)
    ensures
        after_actions(state, seq![action]) == after_action(state, action),
{
    let one = seq![action];
    assert(one.drop_last() =~= Seq::<ActionView>::empty());
    assert(after_actions(state, one.drop_last()) == (state, Seq::<NotificationView>::empty()));
    assert(Seq::<NotificationView>::empty() + after_action(state, action).1 =~= after_action(state, action).1);
}

/// A Legacy connection frames the stream, not the pieces it arrives in:
/// two data actions leave the buffer and tell the script what one action
/// with both payloads would.
pub proof fn law_data_in_pieces(
    state: State,
    handle: SocketHandle,
    first: Seq<u8>,
    second: Seq<u8>,
)
    requires
        state.sockets.dom().contains(handle),
        state.sockets[handle] is Avm1,
    ensures
        after_actions(state, seq![ActionView::Data(handle, first), ActionView::Data(handle, second)])
            == after_action(state, ActionView::Data(handle, first + second)),
{
    let one = ActionView::Data(handle, first);
    let two = ActionView::Data(handle, second);
    let both = seq![one, two];
    let target = state.sockets[handle];
    let id = target.object();
    assert(both.drop_last() =~= seq![one]);
    assert(both.last() == two);
    law_single_action(state, one);
    let middle = after_action(state, one);
    let end = after_action(middle.0, two);
    let whole = after_action(state, ActionView::Data(handle, first + second));
    assert(after_actions(state, both) == (end.0, middle.1 + end.1));
    if exposes(state.objects, target) {
        let buffer = state.objects[id as int].read_buffer();
        lemma_split_resumes(buffer + first, second);
        assert((buffer + first) + second =~= buffer + (first + second));
        assert(middle.0.objects[id as int].read_buffer() == split(buffer + first).1);
        assert(end.0.objects =~= whole.0.objects);
        assert(middle.1 + end.1 =~= whole.1);
        assert(end.0 =~~= whole.0);
    } else {
        assert(middle.1 + end.1 =~= whole.1);
    }
}

} // verus!
