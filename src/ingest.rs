use vstd::prelude::*;
use crate::row::SubMessage;

verus! {

/// Exit status of the process when the listener fails to accept.
pub const ACCEPT_FAILURE_EXIT: i32 = 3;

/// What happened to one connection of the ingestion loop.
#[derive(Debug)]
pub enum IngestEvent {
    /// The listener could not accept a connection.
    AcceptFailed,
    /// Reading from the accepted connection failed.
    ReadFailed,
    /// The bytes read could not be decoded into a message.
    DecodeFailed,
    /// The bytes read were decoded into this message.
    Decoded(SubMessage),
}

/// What the ingestion loop does next.
#[derive(Debug)]
pub enum IngestAction {
    /// Terminate the process with this status.
    Exit(i32),
    /// Drop the connection and accept the next one.
    NextConnection,
    /// Hand the message to the accumulator, then accept the next connection.
    Forward(SubMessage),
}

/// Decides how the ingestion loop reacts to one connection. A failed accept
/// is fatal; a failed read or decode only drops that connection, leaving the
/// buffer untouched and the loop free to take the next one; a decoded
/// message is passed on unchanged.
pub fn ingest_step(ev: IngestEvent) -> (r: IngestAction)
    ensures
        ev is AcceptFailed ==> r == IngestAction::Exit(ACCEPT_FAILURE_EXIT),
        ev is ReadFailed ==> r == IngestAction::NextConnection,
        ev is DecodeFailed ==> r == IngestAction::NextConnection,
        ev is Decoded ==> r == IngestAction::Forward(ev->Decoded_0),
{
    match ev {
        IngestEvent::AcceptFailed => IngestAction::Exit(ACCEPT_FAILURE_EXIT),
        IngestEvent::ReadFailed => IngestAction::NextConnection,
        IngestEvent::DecodeFailed => IngestAction::NextConnection,
        IngestEvent::Decoded(msg) => IngestAction::Forward(msg),
    }
}

} // verus!
