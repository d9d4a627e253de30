use srt_error::{SrtError, SrtRejectReason};

#[test]
fn every_error_has_its_description() {
    assert_eq!(
        SrtError::Unknown.description(),
        "Internal error when setting the right error code"
    );
    assert_eq!(
        SrtError::Success.description(),
        "The value set when the last error was cleared and no error has occurred since then"
    );
    assert_eq!(
        SrtError::ConnSetup.description(),
        "General setup error resulting from internal system state"
    );
    assert_eq!(
        SrtError::NoServer.description(),
        "Connection timed out while attempting to connect to the remote address"
    );
    assert_eq!(
        SrtError::SockFail.description(),
        "An error occurred when trying to call a system function on an internally used UDP socket"
    );
    assert_eq!(
        SrtError::SecFail.description(),
        "A possible tampering with the handshake packets was detected, or encryption request wasn't properly fulfilled."
    );
    assert_eq!(
        SrtError::Closed.description(),
        "A socket that was vital for an operation called in blocking mode has been closed during the operation"
    );
    assert_eq!(
        SrtError::ConnFail.description(),
        "General connection failure of unknown details"
    );
    assert_eq!(
        SrtError::ConnLost.description(),
        "The socket was properly connected, but the connection has been broken"
    );
    assert_eq!(
        SrtError::NoConn.description(),
        "The socket is not connected"
    );
    assert_eq!(
        SrtError::Resource.description(),
        "System or standard library error reported unexpectedly for unknown purpose"
    );
    assert_eq!(
        SrtError::Thread.description(),
        "System was unable to spawn a new thread when requried"
    );
    assert_eq!(
        SrtError::NoBuf.description(),
        "System was unable to allocate memory for buffers"
    );
    assert_eq!(
        SrtError::SysObj.description(),
        "System was unable to allocate system specific objects"
    );
    assert_eq!(
        SrtError::File.description(),
        "General filesystem error (for functions operating with file transmission)"
    );
    assert_eq!(
        SrtError::InvRdOff.description(),
        "Failure when trying to read from a given position in the file"
    );
    assert_eq!(
        SrtError::RdPerm.description(),
        "Read permission was denied when trying to read from file"
    );
    assert_eq!(
        SrtError::InvWrOff.description(),
        "Failed to set position in the written file"
    );
    assert_eq!(
        SrtError::WrPerm.description(),
        "Write permission was denied when trying to write to a file"
    );
    assert_eq!(
        SrtError::InvOp.description(),
        "Invalid operation performed for the current state of a socket"
    );
    assert_eq!(
        SrtError::BoundSock.description(),
        "The socket is currently bound and the required operation cannot be performed in this state"
    );
    assert_eq!(
        SrtError::ConnSock.description(),
        "The socket is currently connected and therefore performing the required operation is not possible"
    );
    assert_eq!(
        SrtError::InvParam.description(),
        "Call parameters for API functions have some requirements that were not satisfied"
    );
    assert_eq!(
        SrtError::InvSock.description(),
        "The API function required an ID of an entity (socket or group) and it was invalid"
    );
    assert_eq!(
        SrtError::UnboundSock.description(),
        "The operation to be performed on a socket requires that it first be explicitly bound"
    );
    assert_eq!(
        SrtError::NoListen.description(),
        "The socket passed for the operation is required to be in the listen state"
    );
    assert_eq!(
        SrtError::RdvNoServ.description(),
        "The required operation cannot be performed when the socket is set to rendezvous mode"
    );
    assert_eq!(
        SrtError::RdvUnbound.description(),
        "An attempt was made to connect to a socket set to rendezvous mode that was not first bound"
    );
    assert_eq!(
        SrtError::InvalMsgApi.description(),
        "The function was used incorrectly in the message API"
    );
    assert_eq!(
        SrtError::InvalBufferApi.description(),
        "The function was used incorrectly in the stream (buffer) API"
    );
    assert_eq!(
        SrtError::DupListen.description(),
        "The port tried to be bound for listening is already busy"
    );
    assert_eq!(
        SrtError::LargeMsg.description(),
        "Size exceeded"
    );
    assert_eq!(
        SrtError::InvPollId.description(),
        "The epoll ID passed to an epoll function is invalid"
    );
    assert_eq!(
        SrtError::PollEmpty.description(),
        "The epoll container currently has no subscribed sockets"
    );
    assert_eq!(
        SrtError::AsyncFail.description(),
        "General asynchronous failure (not in use currently)"
    );
    assert_eq!(
        SrtError::AsyncSnd.description(),
        "Sending operation is not ready to perform"
    );
    assert_eq!(
        SrtError::AsyncRcv.description(),
        "Receiving operation is not ready to perform"
    );
    assert_eq!(
        SrtError::Timeout.description(),
        "The operation timed out"
    );
    assert_eq!(
        SrtError::Congest.description(),
        "With SRTO_TSBPDMODE and SRTO_TLPKTDROP set to true, some packets were dropped by sender"
    );
    assert_eq!(
        SrtError::PeerErr.description(),
        "Receiver peer is writing to a file that the agent is sending"
    );
}

#[test]
fn rejection_description_names_the_reason() {
    assert_eq!(
        SrtError::ConnRej(SrtRejectReason::Unknown).description(),
        "Connection has been rejected: Unknown"
    );
    assert_eq!(
        SrtError::ConnRej(SrtRejectReason::BadSecret).description(),
        "Connection has been rejected: BadSecret"
    );
    assert_eq!(
        SrtError::ConnRej(SrtRejectReason::MessageAPI).description(),
        "Connection has been rejected: MessageAPI"
    );
    assert_eq!(
        SrtError::ConnRej(SrtRejectReason::IPE).description(),
        format!("Connection has been rejected: {:?}", SrtRejectReason::IPE)
    );
}
