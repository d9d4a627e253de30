//! Human-readable descriptions of the errors, for logs and diagnostics.

use crate::error::SrtError;
use vstd::prelude::*;

verus! {

impl SrtError {
    /// The text that describes each error. A rejection's text ends with the
    /// name of its reason.
    pub open spec fn description_text(self) -> Seq<char> {
        match self {
            SrtError::Unknown => "Internal error when setting the right error code"@,
            SrtError::Success => "The value set when the last error was cleared and no error has occurred since then"@,
            SrtError::ConnSetup => "General setup error resulting from internal system state"@,
            SrtError::NoServer => "Connection timed out while attempting to connect to the remote address"@,
            SrtError::ConnRej(reason) => "Connection has been rejected: "@ + reason.name_text(),
            SrtError::SockFail => "An error occurred when trying to call a system function on an internally used UDP socket"@,
            SrtError::SecFail => "A possible tampering with the handshake packets was detected, or encryption request wasn't properly fulfilled."@,
            SrtError::Closed => "A socket that was vital for an operation called in blocking mode has been closed during the operation"@,
            SrtError::ConnFail => "General connection failure of unknown details"@,
            SrtError::ConnLost => "The socket was properly connected, but the connection has been broken"@,
            SrtError::NoConn => "The socket is not connected"@,
            SrtError::Resource => "System or standard library error reported unexpectedly for unknown purpose"@,
            SrtError::Thread => "System was unable to spawn a new thread when requried"@,
            SrtError::NoBuf => "System was unable to allocate memory for buffers"@,
            SrtError::SysObj => "System was unable to allocate system specific objects"@,
            SrtError::File => "General filesystem error (for functions operating with file transmission)"@,
            SrtError::InvRdOff => "Failure when trying to read from a given position in the file"@,
            SrtError::RdPerm => "Read permission was denied when trying to read from file"@,
            SrtError::InvWrOff => "Failed to set position in the written file"@,
            SrtError::WrPerm => "Write permission was denied when trying to write to a file"@,
            SrtError::InvOp => "Invalid operation performed for the current state of a socket"@,
            SrtError::BoundSock => "The socket is currently bound and the required operation cannot be performed in this state"@,
            SrtError::ConnSock => "The socket is currently connected and therefore performing the required operation is not possible"@,
            SrtError::InvParam => "Call parameters for API functions have some requirements that were not satisfied"@,
            SrtError::InvSock => "The API function required an ID of an entity (socket or group) and it was invalid"@,
            SrtError::UnboundSock => "The operation to be performed on a socket requires that it first be explicitly bound"@,
            SrtError::NoListen => "The socket passed for the operation is required to be in the listen state"@,
            SrtError::RdvNoServ => "The required operation cannot be performed when the socket is set to rendezvous mode"@,
            SrtError::RdvUnbound => "An attempt was made to connect to a socket set to rendezvous mode that was not first bound"@,
            SrtError::InvalMsgApi => "The function was used incorrectly in the message API"@,
            SrtError::InvalBufferApi => "The function was used incorrectly in the stream (buffer) API"@,
            SrtError::DupListen => "The port tried to be bound for listening is already busy"@,
            SrtError::LargeMsg => "Size exceeded"@,
            SrtError::InvPollId => "The epoll ID passed to an epoll function is invalid"@,
            SrtError::PollEmpty => "The epoll container currently has no subscribed sockets"@,
            SrtError::AsyncFail => "General asynchronous failure (not in use currently)"@,
            SrtError::AsyncSnd => "Sending operation is not ready to perform"@,
            SrtError::AsyncRcv => "Receiving operation is not ready to perform"@,
            SrtError::Timeout => "The operation timed out"@,
            SrtError::Congest => "With SRTO_TSBPDMODE and SRTO_TLPKTDROP set to true, some packets were dropped by sender"@,
            SrtError::PeerErr => "Receiver peer is writing to a file that the agent is sending"@,
        }
    }

    /// Describes the error in a sentence.
    pub fn description(&self) -> (r: String)
        ensures
            r@ == self.description_text(),
    {
        match self {
            SrtError::Unknown => String::from_str("Internal error when setting the right error code"),
            SrtError::Success => String::from_str("The value set when the last error was cleared and no error has occurred since then"),
            SrtError::ConnSetup => String::from_str("General setup error resulting from internal system state"),
            SrtError::NoServer => String::from_str("Connection timed out while attempting to connect to the remote address"),
            SrtError::ConnRej(reason) => String::from_str("Connection has been rejected: ").concat(reason.name()),
            SrtError::SockFail => String::from_str("An error occurred when trying to call a system function on an internally used UDP socket"),
            SrtError::SecFail => String::from_str("A possible tampering with the handshake packets was detected, or encryption request wasn't properly fulfilled."),
            SrtError::Closed => String::from_str("A socket that was vital for an operation called in blocking mode has been closed during the operation"),
            SrtError::ConnFail => String::from_str("General connection failure of unknown details"),
            SrtError::ConnLost => String::from_str("The socket was properly connected, but the connection has been broken"),
            SrtError::NoConn => String::from_str("The socket is not connected"),
            SrtError::Resource => String::from_str("System or standard library error reported unexpectedly for unknown purpose"),
            SrtError::Thread => String::from_str("System was unable to spawn a new thread when requried"),
            SrtError::NoBuf => String::from_str("System was unable to allocate memory for buffers"),
            SrtError::SysObj => String::from_str("System was unable to allocate system specific objects"),
            SrtError::File => String::from_str("General filesystem error (for functions operating with file transmission)"),
            SrtError::InvRdOff => String::from_str("Failure when trying to read from a given position in the file"),
            SrtError::RdPerm => String::from_str("Read permission was denied when trying to read from file"),
            SrtError::InvWrOff => String::from_str("Failed to set position in the written file"),
            SrtError::WrPerm => String::from_str("Write permission was denied when trying to write to a file"),
            SrtError::InvOp => String::from_str("Invalid operation performed for the current state of a socket"),
            SrtError::BoundSock => String::from_str("The socket is currently bound and the required operation cannot be performed in this state"),
            SrtError::ConnSock => String::from_str("The socket is currently connected and therefore performing the required operation is not possible"),
            SrtError::InvParam => String::from_str("Call parameters for API functions have some requirements that were not satisfied"),
            SrtError::InvSock => String::from_str("The API function required an ID of an entity (socket or group) and it was invalid"),
            SrtError::UnboundSock => String::from_str("The operation to be performed on a socket requires that it first be explicitly bound"),
            SrtError::NoListen => String::from_str("The socket passed for the operation is required to be in the listen state"),
            SrtError::RdvNoServ => String::from_str("The required operation cannot be performed when the socket is set to rendezvous mode"),
            SrtError::RdvUnbound => String::from_str("An attempt was made to connect to a socket set to rendezvous mode that was not first bound"),
            SrtError::InvalMsgApi => String::from_str("The function was used incorrectly in the message API"),
            SrtError::InvalBufferApi => String::from_str("The function was used incorrectly in the stream (buffer) API"),
            SrtError::DupListen => String::from_str("The port tried to be bound for listening is already busy"),
            SrtError::LargeMsg => String::from_str("Size exceeded"),
            SrtError::InvPollId => String::from_str("The epoll ID passed to an epoll function is invalid"),
            SrtError::PollEmpty => String::from_str("The epoll container currently has no subscribed sockets"),
            SrtError::AsyncFail => String::from_str("General asynchronous failure (not in use currently)"),
            SrtError::AsyncSnd => String::from_str("Sending operation is not ready to perform"),
            SrtError::AsyncRcv => String::from_str("Receiving operation is not ready to perform"),
            SrtError::Timeout => String::from_str("The operation timed out"),
            SrtError::Congest => String::from_str("With SRTO_TSBPDMODE and SRTO_TLPKTDROP set to true, some packets were dropped by sender"),
            SrtError::PeerErr => String::from_str("Receiver peer is writing to a file that the agent is sending"),
        }
    }
}

} // verus!
