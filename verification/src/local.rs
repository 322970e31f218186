//! The local watchdog's decision logic.
//!
//! The Unix-socket listener and its per-connection threads run outside the
//! library.  Each handler reads into a buffer of
//! [`LOCAL_READ_BUFFER_LEN`] bytes, hands the outcome of every read to
//! [`local_step`] as a plain value, and performs the action that comes
//! back: log the payload and read again, or stop that handler.  A failure
//! ends only its own connection; the accept loop is never stopped by a
//! handler.

use vstd::prelude::*;

verus! {

/// The size of a handler's read buffer, in bytes.
pub const LOCAL_READ_BUFFER_LEN: usize = 1024;

/// The outcome of one read on a local connection: the bytes read (empty
/// when the peer disconnected), or a read error.
#[derive(Debug)]
pub enum LocalEvent {
    ReadOk { data: Vec<u8> },
    ReadErr,
}

/// What the handler does next: log the payload and keep reading, or stop
/// this connection's handler.
#[derive(Debug)]
pub enum LocalAction {
    Log { payload: Vec<u8> },
    Stop,
}

/// Decides one step of a local connection handler: a non-empty read is
/// logged and the handler keeps reading; a read of zero bytes means the
/// peer disconnected, and a read error ends this handler — either way the
/// handler stops cleanly, and only this connection is affected.
pub fn local_step(event: LocalEvent) -> (a: LocalAction)
    ensures
        event matches LocalEvent::ReadOk { data } ==> (data@.len() > 0 ==> (a matches
        LocalAction::Log { payload } && payload@ == data@)) && (data@.len() == 0 ==> a
            is Stop),
        event is ReadErr ==> a is Stop,
{
    match event {
        LocalEvent::ReadOk { data } => {
            if data.len() == 0 {
                LocalAction::Stop
            } else {
                LocalAction::Log { payload: data }
            }
        },
        LocalEvent::ReadErr => LocalAction::Stop,
    }
}

} // verus!
