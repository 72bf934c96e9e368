//! The messages of the client protocol.

use crate::action::Action;
use crate::queue::Id;
use vstd::prelude::*;

verus! {

/// A message from a client.
#[derive(Debug, PartialEq, Eq)]
pub enum ClientMessage {
    RequestAccess,
    Control { action: Action },
    ReleaseControl,
    GetUserId,
    UserDisconnected { user_id: String },
}

/// The mathematical content of a [`ClientMessage`].
pub enum ClientMessageView {
    RequestAccess,
    Control { action: Action },
    ReleaseControl,
    GetUserId,
    UserDisconnected { user_id: Id },
}

impl View for ClientMessage {
    type V = ClientMessageView;

    open spec fn view(&self) -> ClientMessageView {
        match *self {
            ClientMessage::RequestAccess => ClientMessageView::RequestAccess,
            ClientMessage::Control { action } => ClientMessageView::Control { action },
            ClientMessage::ReleaseControl => ClientMessageView::ReleaseControl,
            ClientMessage::GetUserId => ClientMessageView::GetUserId,
            ClientMessage::UserDisconnected { user_id } => ClientMessageView::UserDisconnected {
                user_id: user_id@,
            },
        }
    }
}

impl Clone for ClientMessage {
    fn clone(&self) -> (copy: Self)
        ensures
            copy@ == self@,
    {
        match self {
            ClientMessage::RequestAccess => ClientMessage::RequestAccess,
            ClientMessage::Control { action } => ClientMessage::Control { action: *action },
            ClientMessage::ReleaseControl => ClientMessage::ReleaseControl,
            ClientMessage::GetUserId => ClientMessage::GetUserId,
            ClientMessage::UserDisconnected { user_id } => ClientMessage::UserDisconnected {
                user_id: user_id.clone(),
            },
        }
    }
}

/// A message to a client.
#[derive(Debug, PartialEq, Eq)]
pub enum ServerMessage {
    AccessGranted { user_id: String },
    AccessDenied { user_id: String },
    QueuePosition { user_id: String, position: usize },
    ControlAction { user_id: String, action: Action },
    Error { user_id: String, message: String },
    ResponseUserId { user_id: String },
}

/// The mathematical content of a [`ServerMessage`].
pub enum ServerMessageView {
    AccessGranted { user_id: Id },
    AccessDenied { user_id: Id },
    QueuePosition { user_id: Id, position: int },
    ControlAction { user_id: Id, action: Action },
    Error { user_id: Id, message: Seq<char> },
    ResponseUserId { user_id: Id },
}

impl View for ServerMessage {
    type V = ServerMessageView;

    open spec fn view(&self) -> ServerMessageView {
        match *self {
            ServerMessage::AccessGranted { user_id } => ServerMessageView::AccessGranted {
                user_id: user_id@,
            },
            ServerMessage::AccessDenied { user_id } => ServerMessageView::AccessDenied {
                user_id: user_id@,
            },
            ServerMessage::QueuePosition { user_id, position } => ServerMessageView::QueuePosition {
                user_id: user_id@,
                position: position as int,
            },
            ServerMessage::ControlAction { user_id, action } => ServerMessageView::ControlAction {
                user_id: user_id@,
                action,
            },
            ServerMessage::Error { user_id, message } => ServerMessageView::Error {
                user_id: user_id@,
                message: message@,
            },
            ServerMessage::ResponseUserId { user_id } => ServerMessageView::ResponseUserId {
                user_id: user_id@,
            },
        }
    }
}

impl Clone for ServerMessage {
    fn clone(&self) -> (copy: Self)
        ensures
            copy@ == self@,
    {
        match self {
            ServerMessage::AccessGranted { user_id } => ServerMessage::AccessGranted {
                user_id: user_id.clone(),
            },
            ServerMessage::AccessDenied { user_id } => ServerMessage::AccessDenied {
                user_id: user_id.clone(),
            },
            ServerMessage::QueuePosition { user_id, position } => ServerMessage::QueuePosition {
                user_id: user_id.clone(),
                position: *position,
            },
            ServerMessage::ControlAction { user_id, action } => ServerMessage::ControlAction {
                user_id: user_id.clone(),
                action: *action,
            },
            ServerMessage::Error { user_id, message } => ServerMessage::Error {
                user_id: user_id.clone(),
                message: message.clone(),
            },
            ServerMessage::ResponseUserId { user_id } => ServerMessage::ResponseUserId {
                user_id: user_id.clone(),
            },
        }
    }
}

} // verus!
