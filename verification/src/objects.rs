//! The script-visible side of a connection: the socket objects of the two
//! engines, kept in a store and addressed by position.
//!
//! The registry never owns these objects. It refers to them by
//! [`SocketKind`], reads their timeout, sets their handle slot and, during a
//! drain pass or a close, fills and clears their buffers.

use vstd::prelude::*;
use crate::handle::ObjectId;
use crate::handle::SocketHandle;
use crate::handle::SocketKind;

verus! {

/// Socket state of a Legacy-engine object with the message-oriented socket
/// capability.
pub struct XmlSocket {
    /// The registry entry that serves this object now, if it ever connected.
    pub handle: Option<SocketHandle>,
    /// Connect timeout in milliseconds.
    pub timeout: u32,
    /// Bytes received and not yet split off as a message.
    pub read_buffer: Vec<u8>,
}

/// Socket state of a Modern-engine socket object.
pub struct SocketObject {
    /// The registry entry that serves this object now, if it ever connected.
    pub handle: Option<SocketHandle>,
    /// Connect timeout in milliseconds.
    pub timeout: u32,
    /// Bytes received and not yet read by the script.
    pub read_buffer: Vec<u8>,
    /// Bytes written by the script and not yet flushed.
    pub write_buffer: Vec<u8>,
}

/// An object of either engine, as far as this library looks at it.
pub enum ScriptObject {
    /// A Legacy-engine object without the socket capability.
    Plain,
    /// A Legacy-engine object with the socket capability.
    XmlSocket(XmlSocket),
    /// A Modern-engine socket object.
    Socket(SocketObject),
}

/// The mathematical value of a [`ScriptObject`].
pub enum ObjectView {
    Plain,
    XmlSocket { handle: Option<SocketHandle>, timeout: u32, read_buffer: Seq<u8> },
    Socket {
        handle: Option<SocketHandle>,
        timeout: u32,
        read_buffer: Seq<u8>,
        write_buffer: Seq<u8>,
    },
}

impl ObjectView {
    /// The handle slot; a plain object has none.
    pub open spec fn handle(self) -> Option<SocketHandle> {
        match self {
            ObjectView::Plain => None,
            ObjectView::XmlSocket { handle, .. } => handle,
            ObjectView::Socket { handle, .. } => handle,
        }
    }

    /// The timeout in milliseconds; zero for a plain object.
    pub open spec fn timeout(self) -> u32 {
        match self {
            ObjectView::Plain => 0,
            ObjectView::XmlSocket { timeout, .. } => timeout,
            ObjectView::Socket { timeout, .. } => timeout,
        }
    }

    /// The read buffer; empty for a plain object.
    pub open spec fn read_buffer(self) -> Seq<u8> {
        match self {
            ObjectView::Plain => Seq::empty(),
            ObjectView::XmlSocket { read_buffer, .. } => read_buffer,
            ObjectView::Socket { read_buffer, .. } => read_buffer,
        }
    }

    /// The write buffer; empty for an object that has none.
    pub open spec fn write_buffer(self) -> Seq<u8> {
        match self {
            ObjectView::Socket { write_buffer, .. } => write_buffer,
            _ => Seq::empty(),
        }
    }

    /// The same object with `slot` in its handle slot.
    pub open spec fn with_handle(self, slot: Option<SocketHandle>) -> ObjectView {
        match self {
            ObjectView::Plain => self,
            ObjectView::XmlSocket { timeout, read_buffer, .. } => ObjectView::XmlSocket {
                handle: slot,
                timeout,
                read_buffer,
            },
            ObjectView::Socket { timeout, read_buffer, write_buffer, .. } => ObjectView::Socket {
                handle: slot,
                timeout,
                read_buffer,
                write_buffer,
            },
        }
    }

    /// The same object with `bytes` as its read buffer.
    pub open spec fn with_read_buffer(self, bytes: Seq<u8>) -> ObjectView {
        match self {
            ObjectView::Plain => self,
            ObjectView::XmlSocket { handle, timeout, .. } => ObjectView::XmlSocket {
                handle,
                timeout,
                read_buffer: bytes,
            },
            ObjectView::Socket { handle, timeout, write_buffer, .. } => ObjectView::Socket {
                handle,
                timeout,
                read_buffer: bytes,
                write_buffer,
            },
        }
    }

    /// The same object with every buffer it has emptied.
    pub open spec fn with_buffers_cleared(self) -> ObjectView {
        match self {
            ObjectView::Plain => self,
            ObjectView::XmlSocket { handle, timeout, .. } => ObjectView::XmlSocket {
                handle,
                timeout,
                read_buffer: Seq::empty(),
            },
            ObjectView::Socket { handle, timeout, .. } => ObjectView::Socket {
                handle,
                timeout,
                read_buffer: Seq::empty(),
                write_buffer: Seq::empty(),
            },
        }
    }
}

impl View for ScriptObject {
    type V = ObjectView;

    open spec fn view(&self) -> ObjectView {
        match *self {
            ScriptObject::Plain => ObjectView::Plain,
            ScriptObject::XmlSocket(socket) => ObjectView::XmlSocket {
                handle: socket.handle,
                timeout: socket.timeout,
                read_buffer: socket.read_buffer@,
            },
            ScriptObject::Socket(socket) => ObjectView::Socket {
                handle: socket.handle,
                timeout: socket.timeout,
                read_buffer: socket.read_buffer@,
                write_buffer: socket.write_buffer@,
            },
        }
    }
}

/// Whether `target` refers to an object in `objects` that has the socket
/// state of the engine that `target` names.
pub open spec fn exposes(objects: Seq<ObjectView>, target: SocketKind) -> bool {
    match target {
        SocketKind::Avm1(id) => id < objects.len() && objects[id as int] is XmlSocket,
        SocketKind::Avm2(id) => id < objects.len() && objects[id as int] is Socket,
    }
}

/// The handle slot of the object that `target` refers to.
pub open spec fn slot_of(objects: Seq<ObjectView>, target: SocketKind) -> Option<SocketHandle> {
    if exposes(objects, target) {
        objects[target.object() as int].handle()
    } else {
        None
    }
}

/// The store after `handle` was put into the slot of `target`'s object.
pub open spec fn slot_set(objects: Seq<ObjectView>, target: SocketKind, handle: SocketHandle) -> Seq<
    ObjectView,
> {
    if exposes(objects, target) {
        objects.update(
            target.object() as int,
            objects[target.object() as int].with_handle(Some(handle)),
        )
    } else {
        objects
    }
}

/// The store after `data` was appended to the read buffer of `target`'s
/// object.
pub open spec fn received(objects: Seq<ObjectView>, target: SocketKind, data: Seq<u8>) -> Seq<
    ObjectView,
> {
    if exposes(objects, target) {
        let object = objects[target.object() as int];
        objects.update(target.object() as int, object.with_read_buffer(object.read_buffer() + data))
    } else {
        objects
    }
}

/// The store after every buffer of `target`'s object was emptied.
pub open spec fn cleared(objects: Seq<ObjectView>, target: SocketKind) -> Seq<ObjectView> {
    if exposes(objects, target) {
        objects.update(
            target.object() as int,
            objects[target.object() as int].with_buffers_cleared(),
        )
    } else {
        objects
    }
}

/// The objects that scripts hold sockets in.
pub struct ScriptObjects {
    pub objects: Vec<ScriptObject>,
}

impl View for ScriptObjects {
    type V = Seq<ObjectView>;

    open spec fn view(&self) -> Seq<ObjectView> {
        Seq::new(self.objects@.len(), |i: int| self.objects@[i]@)
    }
}

impl ScriptObjects {
    /// A store without objects.
    pub fn new() -> (objects: ScriptObjects)
        ensures
            objects@ == Seq::<ObjectView>::empty(),
    {
        ScriptObjects { objects: Vec::new() }
    }

    fn add(&mut self, object: ScriptObject) -> (id: ObjectId)
        ensures
            id == old(self)@.len(),
            final(self)@ == old(self)@.push(object@),
    {
        let id = self.objects.len();
        self.objects.push(object);
        assert(self@ =~= old(self)@.push(object@));
        id
    }

    /// Adds a Legacy-engine object without the socket capability.
    pub fn add_object(&mut self) -> (id: ObjectId)
        ensures
            id == old(self)@.len(),
            final(self)@ == old(self)@.push(ObjectView::Plain),
    {
        self.add(ScriptObject::Plain)
    }

    /// Adds a Legacy-engine socket object that was never connected.
    pub fn add_xml_socket(&mut self, timeout: u32) -> (id: ObjectId)
        ensures
            id == old(self)@.len(),
            final(self)@ == old(self)@.push(
                (ObjectView::XmlSocket { handle: None, timeout, read_buffer: Seq::empty() }),
            ),
    {
        self.add(ScriptObject::XmlSocket(XmlSocket { handle: None, timeout, read_buffer: Vec::new() }))
    }

    /// Adds a Modern-engine socket object that was never connected.
    pub fn add_socket(&mut self, timeout: u32) -> (id: ObjectId)
        ensures
            id == old(self)@.len(),
            final(self)@ == old(self)@.push(
                (ObjectView::Socket {
                    handle: None,
                    timeout,
                    read_buffer: Seq::empty(),
                    write_buffer: Seq::empty(),
                }),
            ),
    {
        self.add(
            ScriptObject::Socket(
                SocketObject {
                    handle: None,
                    timeout,
                    read_buffer: Vec::new(),
                    write_buffer: Vec::new(),
                },
            ),
        )
    }

    /// The timeout of `target`'s object, if it exposes the socket state that
    /// `target` names.
    pub fn timeout(&self, target: SocketKind) -> (timeout: Option<u32>)
        ensures
            timeout == if exposes(self@, target) {
                Some(self@[target.object() as int].timeout())
            } else {
                None
            },
    {
        let id = target.object();
        if id >= self.objects.len() {
            return None;
        }
        assert(self@[id as int] == self.objects@[id as int]@);
        match (target, &self.objects[id]) {
            (SocketKind::Avm1(_), ScriptObject::XmlSocket(socket)) => Some(socket.timeout),
            (SocketKind::Avm2(_), ScriptObject::Socket(socket)) => Some(socket.timeout),
            _ => None,
        }
    }

    /// Puts `handle` into the slot of `target`'s object and returns what the
    /// slot held. An object that does not expose the socket state has no
    /// slot: nothing changes then.
    pub fn set_handle(&mut self, target: SocketKind, handle: SocketHandle) -> (previous: Option<
        SocketHandle,
    >)
        ensures
            previous == slot_of(old(self)@, target),
            final(self)@ == slot_set(old(self)@, target, handle),
    {
        let id = target.object();
        if id >= self.objects.len() {
            assert(self@ =~= old(self)@);
            return None;
        }
        assert(self@[id as int] == self.objects@[id as int]@);
        let previous = match (target, &mut self.objects[id]) {
            (SocketKind::Avm1(_), ScriptObject::XmlSocket(socket)) => {
                let previous = socket.handle;
                socket.handle = Some(handle);
                previous
            },
            (SocketKind::Avm2(_), ScriptObject::Socket(socket)) => {
                let previous = socket.handle;
                socket.handle = Some(handle);
                previous
            },
            _ => None,
        };
        assert(self@ =~= slot_set(old(self)@, target, handle));
        previous
    }

    /// Empties the read buffer of `target`'s object, and its write buffer if
    /// it has one.
    pub fn clear_buffers(&mut self, target: SocketKind)
        ensures
            final(self)@ == cleared(old(self)@, target),
    {
        let id = target.object();
        if id >= self.objects.len() {
            assert(self@ =~= old(self)@);
            return ;
        }
        assert(self@[id as int] == self.objects@[id as int]@);
        match (target, &mut self.objects[id]) {
            (SocketKind::Avm1(_), ScriptObject::XmlSocket(socket)) => {
                socket.read_buffer.clear();
            },
            (SocketKind::Avm2(_), ScriptObject::Socket(socket)) => {
                socket.read_buffer.clear();
                socket.write_buffer.clear();
            },
            _ => {},
        }
        assert(self@ =~= cleared(old(self)@, target));
    }
}

} // verus!
