//! What the backend reports to the core, and what the core tells the scripts.

use vstd::prelude::*;
use crate::handle::ObjectId;
use crate::handle::SocketHandle;

verus! {

/// How a connect request ended.
#[derive(Clone, Copy, Debug, PartialEq, Eq, Structural)]
pub enum ConnectionState {
    Connected,
    Failed,
    TimedOut,
}

/// One event of a connection, queued by its backend task and consumed by the
/// drain pass.
#[derive(Debug, PartialEq, Eq)]
pub enum SocketAction {
    Connect(SocketHandle, ConnectionState),
    Data(SocketHandle, Vec<u8>),
    Close(SocketHandle),
}

/// The mathematical value of a [`SocketAction`].
pub enum ActionView {
    Connect(SocketHandle, ConnectionState),
    Data(SocketHandle, Seq<u8>),
    Close(SocketHandle),
}

impl ActionView {
    /// The connection that the action is about.
    pub open spec fn handle(self) -> SocketHandle {
        match self {
            ActionView::Connect(handle, _) => handle,
            ActionView::Data(handle, _) => handle,
            ActionView::Close(handle) => handle,
        }
    }
}

impl View for SocketAction {
    type V = ActionView;

    open spec fn view(&self) -> ActionView {
        match *self {
            SocketAction::Connect(handle, state) => ActionView::Connect(handle, state),
            SocketAction::Data(handle, data) => ActionView::Data(handle, data@),
            SocketAction::Close(handle) => ActionView::Close(handle),
        }
    }
}

impl SocketAction {
    /// The connection that the action is about.
    pub fn handle(&self) -> (handle: SocketHandle)
        ensures
            handle == self@.handle(),
    {
        match self {
            SocketAction::Connect(handle, _) => *handle,
            SocketAction::Data(handle, _) => *handle,
            SocketAction::Close(handle) => *handle,
        }
    }
}

/// The values of a sequence of actions.
pub open spec fn action_views(actions: Seq<SocketAction>) -> Seq<ActionView> {
    Seq::new(actions.len(), |k: int| actions[k]@)
}

/// The error code of the IO-error event that reports a failed connect.
pub const IO_ERROR_CODE: u32 = 2031;

/// The message of the IO-error event that reports a failed connect.
pub open spec fn io_error_text() -> Seq<char> {
    "Error #2031: Socket Error."@
}

/// One notification for a script object: a callback of the Legacy engine
/// (`OnConnect`, `OnData`, `OnClose`) or an event of the Modern engine.
#[derive(Debug, PartialEq, Eq)]
pub enum Notification {
    /// Legacy `onConnect` callback; `success` is false for a failed and for a
    /// timed-out connect alike.
    OnConnect { target: ObjectId, success: bool },
    /// Legacy `onData` callback with one decoded message.
    OnData { target: ObjectId, message: String },
    /// Legacy `onClose` callback.
    OnClose { target: ObjectId },
    /// Modern `connect` event.
    Connect { target: ObjectId },
    /// Modern `ioError` event for a failed or timed-out connect.
    IoError { target: ObjectId, code: u32, text: String },
    /// Modern `socketData` progress event for one data action.
    SocketData { target: ObjectId, bytes_loaded: usize, bytes_total: usize },
    /// Modern `close` event.
    Close { target: ObjectId },
}

/// The mathematical value of a [`Notification`].
pub enum NotificationView {
    OnConnect { target: ObjectId, success: bool },
    OnData { target: ObjectId, message: Seq<char> },
    OnClose { target: ObjectId },
    Connect { target: ObjectId },
    IoError { target: ObjectId, code: u32, text: Seq<char> },
    SocketData { target: ObjectId, bytes_loaded: usize, bytes_total: usize },
    Close { target: ObjectId },
}

impl NotificationView {
    /// The object that is notified.
    pub open spec fn target(self) -> ObjectId {
        match self {
            NotificationView::OnConnect { target, .. } => target,
            NotificationView::OnData { target, .. } => target,
            NotificationView::OnClose { target } => target,
            NotificationView::Connect { target } => target,
            NotificationView::IoError { target, .. } => target,
            NotificationView::SocketData { target, .. } => target,
            NotificationView::Close { target } => target,
        }
    }

    /// The name of the callback or event.
    pub open spec fn name(self) -> Seq<char> {
        match self {
            NotificationView::OnConnect { .. } => "onConnect"@,
            NotificationView::OnData { .. } => "onData"@,
            NotificationView::OnClose { .. } => "onClose"@,
            NotificationView::Connect { .. } => "connect"@,
            NotificationView::IoError { .. } => "ioError"@,
            NotificationView::SocketData { .. } => "socketData"@,
            NotificationView::Close { .. } => "close"@,
        }
    }
}

impl View for Notification {
    type V = NotificationView;

    open spec fn view(&self) -> NotificationView {
        match *self {
            Notification::OnConnect { target, success } => NotificationView::OnConnect {
                target,
                success,
            },
            Notification::OnData { target, message } => NotificationView::OnData {
                target,
                message: message@,
            },
            Notification::OnClose { target } => NotificationView::OnClose { target },
            Notification::Connect { target } => NotificationView::Connect { target },
            Notification::IoError { target, code, text } => NotificationView::IoError {
                target,
                code,
                text: text@,
            },
            Notification::SocketData { target, bytes_loaded, bytes_total } => NotificationView::SocketData {
                target,
                bytes_loaded,
                bytes_total,
            },
            Notification::Close { target } => NotificationView::Close { target },
        }
    }
}

impl Notification {
    /// The object that is notified.
    pub fn target(&self) -> (target: ObjectId)
        ensures
            target == self@.target(),
    {
        match self {
            Notification::OnConnect { target, .. } => *target,
            Notification::OnData { target, .. } => *target,
            Notification::OnClose { target } => *target,
            Notification::Connect { target } => *target,
            Notification::IoError { target, .. } => *target,
            Notification::SocketData { target, .. } => *target,
            Notification::Close { target } => *target,
        }
    }

    /// The name of the callback to invoke or of the event to dispatch.
    pub fn name(&self) -> (name: &'static str)
        ensures
            name@ == self@.name(),
    {
        match self {
            Notification::OnConnect { .. } => "onConnect",
            Notification::OnData { .. } => "onData",
            Notification::OnClose { .. } => "onClose",
            Notification::Connect { .. } => "connect",
            Notification::IoError { .. } => "ioError",
            Notification::SocketData { .. } => "socketData",
            Notification::Close { .. } => "close",
        }
    }

    /// The IO-error event for `target`, with the fixed code and message.
    pub fn io_error(target: ObjectId) -> (event: Notification)
        ensures
            event@ == (NotificationView::IoError {
                target,
                code: IO_ERROR_CODE,
                text: io_error_text(),
            }),
    {
        Notification::IoError {
            target,
            code: IO_ERROR_CODE,
            text: "Error #2031: Socket Error.".to_owned(),
        }
    }
}

/// The values of a sequence of notifications.
pub open spec fn notification_views(notifications: Seq<Notification>) -> Seq<NotificationView> {
    Seq::new(notifications.len(), |k: int| notifications[k]@)
}

} // verus!
