//! The control channel: what is put on the wire for a report, and what is
//! made of a failed send.

use crate::codec::outgoing_text;
use crate::commands::OutgoingMessage;
use crate::errors::{prefixed, words, BasicAgentError};
use vstd::prelude::*;
use vstd::string::StringExecFns;

verus! {

/// The text frame that carries `message` to the control server.
pub fn outgoing_frame(message: &OutgoingMessage) -> (frame: String)
    ensures
        frame@ == outgoing_text(message@),
{
    message.encode()
}

/// The mathematical value of what sending a frame gave: the message of the
/// error, if there was one.
pub open spec fn send_failure(r: Result<(), BasicAgentError>) -> Option<Seq<char>> {
    match r {
        Ok(_) => None,
        Err(e) => Some(e@),
    }
}

/// What is made of sending a frame: `failure` holds the words of the failure
/// where the frame could not be handed to the connection. Such an error is
/// for the log; the agent goes on.
pub fn send_result(failure: Option<&str>) -> (r: Result<(), BasicAgentError>)
    ensures
        send_failure(r) == prefixed("Failed to send outgoing message: "@, words(failure)),
{
    match failure {
        None => Ok(()),
        Some(why) => {
            let mut message = "Failed to send outgoing message: ".to_owned();
            message.append(why);
            Err(BasicAgentError::new(message.as_str()))
        },
    }
}

/// The length of the chunk that a read of `read` bytes into a buffer of
/// `capacity` bytes gave.
pub open spec fn chunk_len(capacity: nat, read: nat) -> nat {
    if read < capacity {
        read
    } else {
        capacity
    }
}

/// The chunk to pass on after one read, as a mathematical value.
pub open spec fn chunk_after(buffer: Seq<u8>, read: Option<usize>) -> Option<Seq<u8>> {
    match read {
        None => None,
        Some(n) => if n == 0 {
            None
        } else {
            Some(buffer.take(chunk_len(buffer.len(), n as nat) as int))
        },
    }
}

/// The mathematical value of a chunk that may be missing.
pub open spec fn chunk_model(chunk: Option<Vec<u8>>) -> Option<Seq<u8>> {
    match chunk {
        Some(bytes) => Some(bytes@),
        None => None,
    }
}

/// The chunk to pass on after one read from standard input into `buffer`:
/// the bytes that were read, or nothing where the read failed (`None`) or
/// gave no bytes, which ends the reading.
pub fn next_chunk(buffer: Vec<u8>, read: Option<usize>) -> (chunk: Option<Vec<u8>>)
    ensures
        chunk_model(chunk) == chunk_after(buffer@, read),
{
    match read {
        None => None,
        Some(n) => {
            if n == 0 {
                None
            } else {
                let mut bytes = buffer;
                bytes.truncate(n);
                assert(bytes@ =~= buffer@.take(chunk_len(buffer@.len(), n as nat) as int));
                Some(bytes)
            }
        },
    }
}

} // verus!
