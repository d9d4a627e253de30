//! Projection of the transport's errors onto portable error categories.

use crate::error::SrtError;
use crate::reject::SrtRejectReason;
use vstd::prelude::*;

verus! {

/// A coarse, protocol-agnostic class of failure, for callers that handle
/// errors uniformly. Many errors share one category.
#[derive(Clone, Copy, Debug, PartialEq, Eq, Structural)]
pub enum GenericErrorCategory {
    /// The connection could not be set up, or the other side refused it.
    ConnectionRefused,
    /// An established connection was broken.
    ConnectionAborted,
    /// The socket is not connected, or not bound, yet.
    NotConnected,
    /// The socket, or the id given for it, cannot be used.
    AddrNotAvailable,
    /// The socket or the port is already taken up.
    AddrInUse,
    /// The call or its parameters were not valid.
    InvalidInput,
    /// Access to a file was denied.
    PermissionDenied,
    /// A file could not be worked with.
    NotFound,
    /// The operation timed out.
    TimedOut,
    /// The operation is not ready; it may be tried again.
    WouldBlock,
    /// Anything without a closer portable equivalent.
    Other,
}

impl SrtError {
    /// The category of each error, family by family.
    pub open spec fn category(self) -> GenericErrorCategory {
        match self {
            SrtError::ConnSetup
            | SrtError::NoServer
            | SrtError::ConnRej(_)
            | SrtError::SecFail
            | SrtError::ConnFail
            | SrtError::RdvNoServ
            | SrtError::RdvUnbound => GenericErrorCategory::ConnectionRefused,
            SrtError::ConnLost => GenericErrorCategory::ConnectionAborted,
            SrtError::NoConn
            | SrtError::UnboundSock => GenericErrorCategory::NotConnected,
            SrtError::SockFail
            | SrtError::Closed
            | SrtError::InvSock
            | SrtError::InvPollId => GenericErrorCategory::AddrNotAvailable,
            SrtError::BoundSock
            | SrtError::ConnSock
            | SrtError::DupListen => GenericErrorCategory::AddrInUse,
            SrtError::InvRdOff
            | SrtError::InvWrOff
            | SrtError::InvOp
            | SrtError::InvParam
            | SrtError::NoListen
            | SrtError::InvalMsgApi
            | SrtError::InvalBufferApi => GenericErrorCategory::InvalidInput,
            SrtError::RdPerm
            | SrtError::WrPerm => GenericErrorCategory::PermissionDenied,
            SrtError::File => GenericErrorCategory::NotFound,
            SrtError::Timeout => GenericErrorCategory::TimedOut,
            SrtError::AsyncFail
            | SrtError::AsyncSnd
            | SrtError::AsyncRcv => GenericErrorCategory::WouldBlock,
            SrtError::Unknown
            | SrtError::Success
            | SrtError::Resource
            | SrtError::Thread
            | SrtError::NoBuf
            | SrtError::SysObj
            | SrtError::LargeMsg
            | SrtError::PollEmpty
            | SrtError::Congest
            | SrtError::PeerErr => GenericErrorCategory::Other,
        }
    }

    /// Projects the error onto its portable category. The projection loses
    /// information on purpose and is not meant to be inverted.
    pub fn to_generic_category(self) -> (r: GenericErrorCategory)
        ensures
            r == self.category(),
    {
        match self {
            SrtError::Unknown => GenericErrorCategory::Other,
            SrtError::Success => GenericErrorCategory::Other,
            SrtError::ConnSetup => GenericErrorCategory::ConnectionRefused,
            SrtError::NoServer => GenericErrorCategory::ConnectionRefused,
            SrtError::ConnRej(_) => GenericErrorCategory::ConnectionRefused,
            SrtError::SockFail => GenericErrorCategory::AddrNotAvailable,
            SrtError::SecFail => GenericErrorCategory::ConnectionRefused,
            SrtError::Closed => GenericErrorCategory::AddrNotAvailable,
            SrtError::ConnFail => GenericErrorCategory::ConnectionRefused,
            SrtError::ConnLost => GenericErrorCategory::ConnectionAborted,
            SrtError::NoConn => GenericErrorCategory::NotConnected,
            SrtError::Resource => GenericErrorCategory::Other,
            SrtError::Thread => GenericErrorCategory::Other,
            SrtError::NoBuf => GenericErrorCategory::Other,
            SrtError::SysObj => GenericErrorCategory::Other,
            SrtError::File => GenericErrorCategory::NotFound,
            SrtError::InvRdOff => GenericErrorCategory::InvalidInput,
            SrtError::RdPerm => GenericErrorCategory::PermissionDenied,
            SrtError::InvWrOff => GenericErrorCategory::InvalidInput,
            SrtError::WrPerm => GenericErrorCategory::PermissionDenied,
            SrtError::InvOp => GenericErrorCategory::InvalidInput,
            SrtError::BoundSock => GenericErrorCategory::AddrInUse,
            SrtError::ConnSock => GenericErrorCategory::AddrInUse,
            SrtError::InvParam => GenericErrorCategory::InvalidInput,
            SrtError::InvSock => GenericErrorCategory::AddrNotAvailable,
            SrtError::UnboundSock => GenericErrorCategory::NotConnected,
            SrtError::NoListen => GenericErrorCategory::InvalidInput,
            SrtError::RdvNoServ => GenericErrorCategory::ConnectionRefused,
            SrtError::RdvUnbound => GenericErrorCategory::ConnectionRefused,
            SrtError::InvalMsgApi => GenericErrorCategory::InvalidInput,
            SrtError::InvalBufferApi => GenericErrorCategory::InvalidInput,
            SrtError::DupListen => GenericErrorCategory::AddrInUse,
            SrtError::LargeMsg => GenericErrorCategory::Other,
            SrtError::InvPollId => GenericErrorCategory::AddrNotAvailable,
            SrtError::PollEmpty => GenericErrorCategory::Other,
            SrtError::AsyncFail => GenericErrorCategory::WouldBlock,
            SrtError::AsyncSnd => GenericErrorCategory::WouldBlock,
            SrtError::AsyncRcv => GenericErrorCategory::WouldBlock,
            SrtError::Timeout => GenericErrorCategory::TimedOut,
            SrtError::Congest => GenericErrorCategory::Other,
            SrtError::PeerErr => GenericErrorCategory::Other,
        }
    }

    /// A rejection is a refused connection whatever its reason: the reason
    /// does not refine the category.
    pub proof fn category_ignores_reject_reason(a: SrtRejectReason, b: SrtRejectReason)
        ensures
            SrtError::ConnRej(a).category() == SrtError::ConnRej(b).category(),
            SrtError::ConnRej(a).category() == GenericErrorCategory::ConnectionRefused,
    {
    }

    /// Errors with the same number have the same category: the category
    /// of what a number decodes to is a matter of the number alone.
    pub proof fn category_depends_on_errno(a: SrtError, b: SrtError)
        requires
            a.errno() == b.errno(),
        ensures
            a.category() == b.category(),
    {
    }
}

impl From<SrtError> for GenericErrorCategory {
    /// The category of an error, by way of the standard conversion.
    fn from(e: SrtError) -> (r: GenericErrorCategory) {
        e.to_generic_category()
    }
}

impl vstd::std_specs::convert::FromSpecImpl<SrtError> for GenericErrorCategory {
    open spec fn obeys_from_spec() -> bool {
        true
    }

    open spec fn from_spec(e: SrtError) -> GenericErrorCategory {
        e.category()
    }
}

} // verus!
