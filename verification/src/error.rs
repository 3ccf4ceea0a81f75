//! The library-wide error union.

use vstd::prelude::*;

verus! {

use crate::cmd::CmdDeserError;
use crate::connection::{EventStreamError, WsConnectError};

/// Everything that can go wrong across the library, in one union.
#[derive(Debug)]
pub enum Error {
    /// A JSON message could not be read as a known command.
    CmdDeserialize(CmdDeserError),
    /// The room-resolution collaborator failed, in words.
    BiliClientError(String),
    /// A live event stream ended.
    EventStream(EventStreamError),
    /// The WebSocket handshake failed.
    WsConnect(WsConnectError),
}

} // verus!
