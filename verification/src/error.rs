//! Error taxonomy of the library. Variants carry no foreign payloads: the
//! shell maps transport-level failures onto these before they reach the
//! verified core, so contracts can speak about them exactly.

use vstd::prelude::*;

verus! {

/// Errors surfaced by a node's stream connection and its supervisor.
#[derive(Clone, Debug)]
pub enum LavalinkNodeError {
    /// Handshake or I/O failure on the message stream.
    Transport,
    /// The stream observed a close frame; triggers the reconnect path.
    ConnectionClosed,
    /// A handshake header value could not be encoded.
    InvalidHeaderValue,
    /// Sending on an inter-task channel failed (the peer task has exited).
    ChannelSend,
    /// Receiving on an inter-task channel failed (the peer task has exited).
    ChannelRecv,
}

/// Errors surfaced by the request/response (control) surface of a node.
#[derive(Clone, Debug)]
pub enum LavalinkRestError {
    /// A node-level failure propagated into a control operation.
    LavalinkNode(LavalinkNodeError),
    /// A response body failed to parse as the expected schema.
    SerdeParse,
    /// The request/response transport failed below status level.
    Http,
    /// The response carried a status outside the 2xx range.
    ResponseReceivedNotOk(u16),
    /// A session-scoped operation was attempted before a session id was known.
    NoSessionId,
    /// The response body was empty where a value was expected.
    NothingReturned,
}

/// Errors surfaced by a player (tenant) facade.
#[derive(Clone, Debug)]
pub enum LavalinkPlayerError {
    /// A control-surface failure propagated into a player operation.
    LavalinkRest(LavalinkRestError),
    /// Receiving on the player's event channel failed.
    ChannelRecv,
    /// Sending on the player's event channel failed.
    ChannelSend,
}

/// Errors surfaced by the fleet registry.
#[derive(Clone, Debug)]
pub enum AnchorageError {
    /// A node-level failure propagated into a registry operation.
    LavalinkNode(LavalinkNodeError),
    /// A player-level failure propagated into a registry operation.
    LavalinkPlayer(LavalinkPlayerError),
    /// A control-surface failure propagated into a registry operation.
    LavalinkRest(LavalinkRestError),
    /// A player was created for a tenant that is already registered.
    CreateExistingPlayer,
    /// Ideal-node selection was attempted on an empty fleet.
    NoNodesAvailable,
}

} // verus!
