//! The registry of live connections and the operations on it: connect,
//! send, close, and the drain pass that runs once per tick.

use vstd::prelude::*;
use generational_arena::Arena;
use crate::action::action_views;
use crate::action::notification_views;
use crate::action::ActionView;
use crate::action::ConnectionState;
use crate::action::Notification;
use crate::action::NotificationView;
use crate::action::SocketAction;
use crate::arena::arena_generation;
use crate::arena::arena_get;
use crate::arena::arena_insert;
use crate::arena::arena_new;
use crate::arena::arena_remove;
use crate::arena::arena_targets;
use crate::arena::no_sockets;
use crate::arena::Socket;
use crate::channel::clone_inbound;
use crate::channel::send_outbound;
use crate::channel::try_recv_inbound;
use crate::framing::decode_messages;
use crate::framing::text_views;
use crate::handle::ObjectId;
use crate::handle::SocketHandle;
use crate::handle::SocketKind;
use crate::model::after_action;
use crate::model::after_actions;
use crate::model::close_notification;
use crate::model::after_close;
use crate::model::connect_notification;
use crate::model::after_connect;
use crate::model::data_buffered;
use crate::model::data_notifications;
use crate::model::lemma_generation_after_action;
use crate::model::message_notifications;
use crate::model::State;
use crate::objects::exposes;
use crate::objects::ScriptObject;
use crate::objects::ScriptObjects;

verus! {

/// What the backend needs to serve one connection: where to connect, how
/// long to wait, the handle to tag its actions with, the receiving end of
/// the connection's outbound channel and a sender for the action queue.
pub struct ConnectRequest {
    pub host: String,
    pub port: u16,
    /// Connect timeout in milliseconds, as configured on the script object.
    pub timeout_ms: u64,
    pub handle: SocketHandle,
    pub receiver: async_channel::Receiver<Vec<u8>>,
    pub sender: std::sync::mpsc::Sender<SocketAction>,
}

/// Manages the collection of sockets.
pub struct Sockets {
    sockets: Arena<Socket>,
    /// How many entries were removed; equal to the arena's generation.
    removed: u64,
    receiver: std::sync::mpsc::Receiver<SocketAction>,
    sender: std::sync::mpsc::Sender<SocketAction>,
}

/// What a drain pass works on: the registry and the script objects.
pub struct UpdateContext {
    pub sockets: Sockets,
    pub objects: ScriptObjects,
}

impl View for UpdateContext {
    type V = State;

    open spec fn view(&self) -> State {
        self.sockets.state(&self.objects)
    }
}

/// What a connect call for `target` returns and leaves behind. If the object
/// of `target` has the socket state that `target` names, the call returns a
/// request with the host and port that were asked for, the object's timeout
/// and a handle that the registry had not in use, and `after` is `before`
/// with `target` connected under that handle. Otherwise it returns nothing
/// and changes nothing.
pub open spec fn connects(
    before: State,
    after: State,
    target: SocketKind,
    host: String,
    port: u16,
    request: Option<ConnectRequest>,
) -> bool {
    if exposes(before.objects, target) {
        &&& request is Some
        &&& request.unwrap().host == host
        &&& request.unwrap().port == port
        &&& request.unwrap().timeout_ms == before.objects[target.object() as int].timeout()
        &&& before.admits(request.unwrap().handle)
        &&& after == after_connect(before, target, request.unwrap().handle)
    } else {
        &&& request is None
        &&& after == before
    }
}

impl Sockets {
    /// The invariant of the registry: the removal count is the arena's
    /// generation, and no live handle is tagged with a later one.
    pub closed spec fn wf(&self) -> bool {
        &&& arena_generation(self.sockets) == self.removed
        &&& forall|handle: SocketHandle| #[trigger]
            arena_targets(self.sockets).dom().contains(handle) ==> handle.generation
                <= self.removed
    }

    /// The live connections, each with the object it serves.
    pub closed spec fn view(&self) -> Map<SocketHandle, SocketKind> {
        arena_targets(self.sockets)
    }

    /// How many connections were removed so far.
    pub closed spec fn spec_generation(&self) -> u64 {
        self.removed
    }

    /// The registry and `objects` as one state.
    pub open spec fn state(&self, objects: &ScriptObjects) -> State {
        State { sockets: self@, generation: self.spec_generation() as nat, objects: objects@ }
    }

    /// A well-formed registry is well-formed as a state, with any objects.
    pub proof fn lemma_state_wf(&self, objects: &ScriptObjects)
        requires
            self.wf(),
        ensures
            self.state(objects).wf(),
    {
    }

    /// A registry without connections, with a fresh action queue.
    pub fn empty() -> (sockets: Sockets)
        ensures
            sockets.wf(),
            sockets@ == no_sockets(),
            sockets.spec_generation() == 0,
    {
        let (sender, receiver) = std::sync::mpsc::channel();
        Sockets { sockets: arena_new(), removed: 0, receiver, sender }
    }

    /// How many connections were removed so far. No connection can be
    /// removed once this is `u64::MAX`.
    #[verifier::when_used_as_spec(spec_generation)]
    pub fn generation(&self) -> (generation: u64)
        ensures
            generation == self.spec_generation(),
    {
        self.removed
    }

    /// The object that `handle`'s connection serves, if `handle` is live.
    pub fn target(&self, handle: SocketHandle) -> (target: Option<SocketKind>)
        ensures
            target == if self@.dom().contains(handle) {
                Some(self@[handle])
            } else {
                None
            },
    {
        match arena_get(&self.sockets, handle) {
            Some(socket) => Some(socket.target),
            None => None,
        }
    }

    /// Whether `handle` is live: connecting or connected, and not yet
    /// closed.
    pub fn is_connected(&self, handle: SocketHandle) -> (live: bool)
        ensures
            live == self@.dom().contains(handle),
    {
        arena_get(&self.sockets, handle).is_some()
    }

    /// Hands `data` to the outbound channel of `handle`'s connection. The
    /// channel has no capacity limit, so this does not wait for the backend
    /// task. For a handle that is not live the data is dropped. Either way
    /// the registry is as before and the caller is told nothing.
    pub fn send(&mut self, handle: SocketHandle, data: Vec<u8>)
        ensures
            *final(self) == *old(self),
    {
        match arena_get(&self.sockets, handle) {
            Some(socket) => {
                send_outbound(&socket.sender, data);
            },
            None => {},
        }
    }

    /// Closes `handle`: removes its entry, which drops the outbound sender,
    /// and empties the buffers of the object it served. Closing a handle
    /// that is not live does nothing.
    pub fn close(&mut self, objects: &mut ScriptObjects, handle: SocketHandle)
        requires
            old(self).wf(),
            old(self)@.dom().contains(handle) ==> old(self).generation() < u64::MAX,
        ensures
            final(self).wf(),
            final(self).state(final(objects)) == after_close(old(self).state(old(objects)), handle),
    {
        match arena_remove(&mut self.sockets, handle) {
            Some(socket) => {
                self.removed = self.removed + 1;
                objects.clear_buffers(socket.target);
            },
            None => {},
        }
        assert(self.state(objects) =~~= after_close(old(self).state(old(objects)), handle));
    }

    /// Connects `target`, an object of either engine.
    fn connect(
        &mut self,
        objects: &mut ScriptObjects,
        target: SocketKind,
        host: String,
        port: u16,
    ) -> (request: Option<ConnectRequest>)
        requires
            old(self).wf(),
            old(self).generation() < u64::MAX,
        ensures
            final(self).wf(),
            connects(
                old(self).state(old(objects)),
                final(self).state(final(objects)),
                target,
                host,
                port,
                request,
            ),
    {
        let timeout = match objects.timeout(target) {
            Some(timeout) => timeout,
            None => {
                return None;
            },
        };
        let (sender, receiver) = async_channel::unbounded();
        let handle = arena_insert(&mut self.sockets, Socket { target, sender });
        let request = ConnectRequest {
            host,
            port,
            timeout_ms: timeout as u64,
            handle,
            receiver,
            sender: clone_inbound(&self.sender),
        };
        if let Some(existing) = objects.set_handle(target, handle) {
            // A connection that the object already had is closed when a new
            // one is made.
            self.close(objects, existing);
        }
        assert(self.state(objects) =~~= after_connect(old(self).state(old(objects)), target, handle));
        Some(request)
    }

    /// Starts a connection for a Modern-engine socket object: reads its
    /// timeout, inserts a registry entry with a fresh outbound channel, puts
    /// the new handle into the object's slot and closes the handle that the
    /// slot held before. The request that is returned is for the backend:
    /// it carries the receiving end of the outbound channel and a sender
    /// for the action queue. If `target` is not a Modern-engine socket
    /// object, nothing happens.
    pub fn connect_avm2(
        &mut self,
        objects: &mut ScriptObjects,
        target: ObjectId,
        host: String,
        port: u16,
    ) -> (request: Option<ConnectRequest>)
        requires
            old(self).wf(),
            old(self).generation() < u64::MAX,
        ensures
            final(self).wf(),
            connects(
                old(self).state(old(objects)),
                final(self).state(final(objects)),
                SocketKind::Avm2(target),
                host,
                port,
                request,
            ),
    {
        self.connect(objects, SocketKind::Avm2(target), host, port)
    }

    /// Starts a connection for a Legacy-engine object, as
    /// [`Sockets::connect_avm2`] does for the other engine. Only an object
    /// with the message-oriented socket capability is accepted: for any
    /// other, nothing happens.
    pub fn connect_avm1(
        &mut self,
        objects: &mut ScriptObjects,
        target: ObjectId,
        host: String,
        port: u16,
    ) -> (request: Option<ConnectRequest>)
        requires
            old(self).wf(),
            old(self).generation() < u64::MAX,
        ensures
            final(self).wf(),
            connects(
                old(self).state(old(objects)),
                final(self).state(final(objects)),
                SocketKind::Avm1(target),
                host,
                port,
                request,
            ),
    {
        self.connect(objects, SocketKind::Avm1(target), host, port)
    }

    /// The notification that tells `target` how its connect request ended.
    fn notify_connect(target: SocketKind, outcome: ConnectionState) -> (told: Notification)
        ensures
            told@ == connect_notification(target, outcome),
    {
        match (target, outcome) {
            (SocketKind::Avm1(id), ConnectionState::Connected) => Notification::OnConnect {
                target: id,
                success: true,
            },
            (SocketKind::Avm1(id), _) => Notification::OnConnect { target: id, success: false },
            (SocketKind::Avm2(id), ConnectionState::Connected) => Notification::Connect {
                target: id,
            },
            (SocketKind::Avm2(id), _) => Notification::io_error(id),
        }
    }

    /// The notification that tells `target` that its connection was closed.
    fn notify_close(target: SocketKind) -> (told: Notification)
        ensures
            told@ == close_notification(target),
    {
        match target {
            SocketKind::Avm1(id) => Notification::OnClose { target: id },
            SocketKind::Avm2(id) => Notification::Close { target: id },
        }
    }

    /// One `onData` callback for each message text, in order.
    fn notify_messages(target: ObjectId, texts: Vec<String>) -> (told: Vec<Notification>)
        ensures
            notification_views(told@) == message_notifications(target, text_views(texts@)),
    {
        let mut told: Vec<Notification> = Vec::new();
        let ghost all = text_views(texts@);
        for message in iter: texts
            invariant
                all == text_views(iter.seq()),
                told.len() == iter.index(),
                forall|j: int|
                    0 <= j < iter.index() ==> told@[j]@ == message_notifications(target, all)[j],
        {
            told.push(Notification::OnData { target, message });
        }
        assert(notification_views(told@) =~= message_notifications(target, all));
        told
    }

    /// Appends `data` to the read buffer of `target`'s object and says what
    /// to tell the script: for the Modern engine one progress event with
    /// the size of `data`; for the Legacy engine one callback for each
    /// message that is now complete.
    fn receive(objects: &mut ScriptObjects, target: SocketKind, data: Vec<u8>) -> (told: Vec<
        Notification,
    >)
        ensures
            final(objects)@ == data_buffered(old(objects)@, target, data@),
            notification_views(told@) == data_notifications(old(objects)@, target, data@),
    {
        let ghost arrived = data@;
        let mut data = data;
        let id = target.object();
        if id >= objects.objects.len() {
            assert(notification_views(Seq::<Notification>::empty()) =~= Seq::<
                NotificationView,
            >::empty());
            return Vec::new();
        }
        assert(objects@[id as int] == objects.objects@[id as int]@);
        let bytes_loaded = data.len();
        let told = match (target, &mut objects.objects[id]) {
            (SocketKind::Avm2(_), ScriptObject::Socket(socket)) => {
                socket.read_buffer.append(&mut data);
                let mut told: Vec<Notification> = Vec::new();
                // The total is not used by this event.
                told.push(Notification::SocketData { target: id, bytes_loaded, bytes_total: 0 });
                assert(notification_views(told@) =~= seq![
                    NotificationView::SocketData { target: id, bytes_loaded, bytes_total: 0 },
                ]);
                told
            },
            (SocketKind::Avm1(_), ScriptObject::XmlSocket(socket)) => {
                socket.read_buffer.append(&mut data);
                let texts = decode_messages(&mut socket.read_buffer);
                Self::notify_messages(id, texts)
            },
            _ => {
                assert(notification_views(Seq::<Notification>::empty()) =~= Seq::<
                    NotificationView,
                >::empty());
                Vec::new()
            },
        };
        assert(objects@ =~= data_buffered(old(objects)@, target, arrived));
        told
    }

    /// Processes one action: looks up its handle and, if it is live, changes
    /// the buffers of the object it serves and says what to tell the script.
    /// An action for a handle that is not live is dropped: it changes
    /// nothing and tells nothing.
    pub fn apply_action(&mut self, objects: &mut ScriptObjects, action: SocketAction) -> (told: Vec<
        Notification,
    >)
        requires
            old(self).wf(),
            old(self).generation() < u64::MAX,
        ensures
            final(self).wf(),
            final(self).state(final(objects)) == after_action(old(self).state(old(objects)), action@).0,
            notification_views(told@) == after_action(old(self).state(old(objects)), action@).1,
    {
        let mut told: Vec<Notification> = Vec::new();
        match action {
            SocketAction::Connect(handle, outcome) => {
                match arena_get(&self.sockets, handle) {
                    Some(socket) => {
                        told.push(Self::notify_connect(socket.target, outcome));
                    },
                    // The socket was closed before the event could be sent.
                    None => {},
                }
            },
            SocketAction::Data(handle, data) => {
                let target = match arena_get(&self.sockets, handle) {
                    Some(socket) => Some(socket.target),
                    None => None,
                };
                match target {
                    Some(target) => {
                        told = Self::receive(objects, target, data);
                    },
                    None => {},
                }
            },
            SocketAction::Close(handle) => {
                match arena_remove(&mut self.sockets, handle) {
                    Some(socket) => {
                        self.removed = self.removed + 1;
                        objects.clear_buffers(socket.target);
                        told.push(Self::notify_close(socket.target));
                    },
                    None => {},
                }
            },
        }
        assert(self.state(objects) =~~= after_action(old(self).state(old(objects)), action@).0);
        assert(notification_views(told@) =~= after_action(old(self).state(old(objects)), action@).1);
        told
    }

    /// Processes a snapshot of actions in order, each as
    /// [`Sockets::apply_action`] does, and returns all the notifications in
    /// the order in which they are due.
    pub fn process_actions(&mut self, objects: &mut ScriptObjects, actions: Vec<SocketAction>) -> (told: Vec<
        Notification,
    >)
        requires
            old(self).wf(),
            old(self).generation() + actions.len() <= u64::MAX,
        ensures
            final(self).wf(),
            final(self).state(final(objects)) == after_actions(
                old(self).state(old(objects)),
                action_views(actions@),
            ).0,
            notification_views(told@) == after_actions(
                old(self).state(old(objects)),
                action_views(actions@),
            ).1,
    {
        let mut told: Vec<Notification> = Vec::new();
        let ghost start = self.state(objects);
        let ghost all = action_views(actions@);
        assert(all.take(0) =~= Seq::<ActionView>::empty());
        assert(notification_views(told@) =~= Seq::<NotificationView>::empty());
        for action in iter: actions
            invariant
                self.wf(),
                all == action_views(iter.seq()),
                self.generation() + iter.seq().len() - iter.index() <= u64::MAX,
                self.state(objects) == after_actions(start, all.take(iter.index() as int)).0,
                notification_views(told@) == after_actions(start, all.take(iter.index() as int)).1,
        {
            let ghost before = notification_views(told@);
            let ghost done = all.take(iter.index() as int);
            proof {
                let next = all.take(iter.index() + 1);
                assert(next.drop_last() =~= done);
                assert(next.last() == action@);
                lemma_generation_after_action(self.state(objects), action@);
            }
            let mut more = self.apply_action(objects, action);
            let ghost added = notification_views(more@);
            told.append(&mut more);
            assert(notification_views(told@) =~= before + added);
        }
        assert(all.take(all.len() as int) =~= all);
        told
    }

    /// Takes the actions that are queued now off the action queue, oldest
    /// first, without waiting for more. It takes no more actions than the
    /// registry could still answer with a removal each.
    pub fn drain_actions(&self) -> (actions: Vec<SocketAction>)
        ensures
            self.generation() + actions.len() <= u64::MAX,
    {
        let room: u64 = u64::MAX - self.removed;
        let mut actions: Vec<SocketAction> = Vec::new();
        while (actions.len() as u64) < room
            invariant
                actions.len() <= room,
            decreases room - actions.len(),
        {
            match try_recv_inbound(&self.receiver) {
                Some(action) => {
                    actions.push(action);
                },
                None => {
                    break ;
                },
            }
        }
        actions
    }

    /// The drain pass, run once per tick: first takes every action that is
    /// queued now into a snapshot, then processes the snapshot in order.
    /// Returns the notifications that are due, in order. Which actions were
    /// queued is for the backend tasks to say; whatever they were, the
    /// context and the notifications are what
    /// [`Sockets::process_actions`] makes of them.
    pub fn update_sockets(context: &mut UpdateContext) -> (told: Vec<Notification>)
        requires
            old(context).sockets.wf(),
        ensures
            final(context).sockets.wf(),
            exists|actions: Seq<ActionView>|
                final(context)@ == after_actions(old(context)@, actions).0 && notification_views(
                    told@,
                ) == #[trigger] after_actions(old(context)@, actions).1,
    {
        let actions = context.sockets.drain_actions();
        let ghost snapshot = action_views(actions@);
        let told = context.sockets.process_actions(&mut context.objects, actions);
        assert(context@ == after_actions(old(context)@, snapshot).0);
        assert(notification_views(told@) == after_actions(old(context)@, snapshot).1);
        told
    }
}

} // verus!
