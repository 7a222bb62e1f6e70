//! Core state of a terminal chat client: messages, conversations and their
//! selection cursors, the focus state machine, the action dispatcher and the
//! streaming completion session that merges partial model output.

pub mod message;
pub mod selection;
pub mod conversation;
pub mod manager;
pub mod focus;
pub mod action;
pub mod stream;
pub mod send;
pub mod dispatch;
