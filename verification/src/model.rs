//! The mathematical model of the core: its state, and what each operation
//! makes of it. The contracts of the executable functions are stated over
//! these functions.

use vstd::prelude::*;
use crate::action::io_error_text;
use crate::action::ActionView;
use crate::action::ConnectionState;
use crate::action::NotificationView;
use crate::action::IO_ERROR_CODE;
use crate::framing::message_texts;
use crate::framing::split;
use crate::handle::ObjectId;
use crate::handle::SocketHandle;
use crate::handle::SocketKind;
use crate::objects::cleared;
use crate::objects::exposes;
use crate::objects::received;
use crate::objects::slot_of;
use crate::objects::slot_set;
use crate::objects::ObjectView;

verus! {

/// The registry together with the script objects it refers to.
#[verifier::ext_equal]
pub struct State {
    /// The live connections, each with the object it serves.
    pub sockets: Map<SocketHandle, SocketKind>,
    /// How many connections were removed so far. A new handle is tagged
    /// with this number.
    pub generation: nat,
    /// The script objects.
    pub objects: Seq<ObjectView>,
}

impl State {
    /// No live handle is tagged with a generation that is still to come.
    pub open spec fn wf(self) -> bool {
        forall|handle: SocketHandle| #[trigger]
            self.sockets.dom().contains(handle) ==> handle.generation <= self.generation
    }

    /// Whether `handle` can be given to the next connection: it is not
    /// live and it carries the current generation.
    pub open spec fn admits(self, handle: SocketHandle) -> bool {
        &&& handle.generation == self.generation
        &&& !self.sockets.dom().contains(handle)
    }

    /// Every live connection is the one that the object it serves names in
    /// its handle slot. No object is then served by two connections.
    pub open spec fn bound(self) -> bool {
        forall|handle: SocketHandle| #[trigger]
            self.sockets.dom().contains(handle) ==> slot_of(self.objects, self.sockets[handle])
                == Some(handle)
    }

    /// Whether `handle` is out of use for good: it is not live, and it is
    /// tagged with a generation that no new handle will carry.
    pub open spec fn retired(self, handle: SocketHandle) -> bool {
        &&& !self.sockets.dom().contains(handle)
        &&& handle.generation < self.generation
    }
}

/// The state after `handle` was closed: its entry is gone and the buffers of
/// the object it served are empty. Closing a handle that is not live changes
/// nothing.
pub open spec fn after_close(state: State, handle: SocketHandle) -> State {
    if state.sockets.dom().contains(handle) {
        State {
            sockets: state.sockets.remove(handle),
            generation: state.generation + 1,
            objects: cleared(state.objects, state.sockets[handle]),
        }
    } else {
        state
    }
}

/// The state after an entry for `target` was inserted under `handle` and
/// `handle` was put into the object's slot.
pub open spec fn after_open(state: State, target: SocketKind, handle: SocketHandle) -> State {
    State {
        sockets: state.sockets.insert(handle, target),
        generation: state.generation,
        objects: slot_set(state.objects, target, handle),
    }
}

/// The state after `target` was connected under `handle`: the new entry is
/// in, the object's slot holds `handle`, and the handle that the slot held
/// before, if any, is closed.
pub open spec fn after_connect(state: State, target: SocketKind, handle: SocketHandle) -> State {
    match slot_of(state.objects, target) {
        Some(previous) => after_close(after_open(state, target, handle), previous),
        None => after_open(state, target, handle),
    }
}

/// The notification for the end of a connect request. Neither engine is
/// told whether the request failed or timed out.
pub open spec fn connect_notification(target: SocketKind, outcome: ConnectionState) -> NotificationView {
    match target {
        SocketKind::Avm1(id) => NotificationView::OnConnect {
            target: id,
            success: outcome is Connected,
        },
        SocketKind::Avm2(id) => if outcome is Connected {
            NotificationView::Connect { target: id }
        } else {
            NotificationView::IoError { target: id, code: IO_ERROR_CODE, text: io_error_text() }
        },
    }
}

/// The notification for a connection that the backend closed.
pub open spec fn close_notification(target: SocketKind) -> NotificationView {
    match target {
        SocketKind::Avm1(id) => NotificationView::OnClose { target: id },
        SocketKind::Avm2(id) => NotificationView::Close { target: id },
    }
}

/// One `onData` callback for each message text, in order.
pub open spec fn message_notifications(target: ObjectId, texts: Seq<Seq<char>>) -> Seq<
    NotificationView,
> {
    Seq::new(texts.len(), |k: int| NotificationView::OnData { target, message: texts[k] })
}

/// The store after a Legacy object received `data`: the complete messages
/// are cut off its read buffer.
pub open spec fn framed_receive(objects: Seq<ObjectView>, id: ObjectId, data: Seq<u8>) -> Seq<
    ObjectView,
> {
    let object = objects[id as int];
    objects.update(id as int, object.with_read_buffer(split(object.read_buffer() + data).1))
}

/// The store after the object of `target` received `data`: the bytes are
/// appended to its read buffer, and for a Legacy object the complete
/// messages are then cut off. An object without the socket state that
/// `target` names receives nothing.
pub open spec fn data_buffered(objects: Seq<ObjectView>, target: SocketKind, data: Seq<u8>) -> Seq<
    ObjectView,
> {
    if !exposes(objects, target) {
        objects
    } else {
        match target {
            SocketKind::Avm2(_) => received(objects, target, data),
            SocketKind::Avm1(id) => framed_receive(objects, id, data),
        }
    }
}

/// What the script is told when the object of `target` received `data`:
/// for the Modern engine one progress event that carries the size of
/// `data` and a total of zero; for the Legacy engine one callback for each
/// message that `data` completed.
pub open spec fn data_notifications(
    objects: Seq<ObjectView>,
    target: SocketKind,
    data: Seq<u8>,
) -> Seq<NotificationView> {
    if !exposes(objects, target) {
        Seq::empty()
    } else {
        match target {
            SocketKind::Avm2(id) => seq![
                NotificationView::SocketData {
                    target: id,
                    bytes_loaded: data.len() as usize,
                    bytes_total: 0,
                },
            ],
            SocketKind::Avm1(id) => message_notifications(
                id,
                message_texts(split(objects[id as int].read_buffer() + data).0),
            ),
        }
    }
}

/// The state after one action, and the notifications it causes, in order.
/// An action for a handle that is not live is dropped.
pub open spec fn after_action(state: State, action: ActionView) -> (State, Seq<NotificationView>) {
    let handle = action.handle();
    if !state.sockets.dom().contains(handle) {
        (state, Seq::empty())
    } else {
        let target = state.sockets[handle];
        match action {
            ActionView::Connect(_, outcome) => (state, seq![connect_notification(target, outcome)]),
            ActionView::Data(_, data) => (
                State {
                    sockets: state.sockets,
                    generation: state.generation,
                    objects: data_buffered(state.objects, target, data),
                },
                data_notifications(state.objects, target, data),
            ),
            ActionView::Close(_) => (after_close(state, handle), seq![close_notification(target)]),
        }
    }
}

/// The state after a snapshot of actions was processed in order, and all the
/// notifications, in order.
pub open spec fn after_actions(state: State, actions: Seq<ActionView>) -> (
    State,
    Seq<NotificationView>,
)
    decreases actions.len(),
{
    if actions.len() == 0 {
        (state, Seq::empty())
    } else {
        let (before, told) = after_actions(state, actions.drop_last());
        let (after, more) = after_action(before, actions.last());
        (after, told + more)
    }
}

/// One action removes at most one connection.
pub proof fn lemma_generation_after_action(state: State, action: ActionView)
    ensures
        state.generation <= after_action(state, action).0.generation <= state.generation + 1,
{
}

} // verus!
