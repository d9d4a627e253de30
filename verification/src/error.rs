//! The transport's error numbers and the enumeration they decode to.

use crate::reject::SrtRejectReason;
use vstd::prelude::*;

verus! {

/// Number of [`SrtError::Unknown`].
pub const SRT_EUNKNOWN: i32 = -1;

/// Number of [`SrtError::Success`].
pub const SRT_SUCCESS: i32 = 0;

/// Number of [`SrtError::ConnSetup`].
pub const SRT_ECONNSETUP: i32 = 1000;

/// Number of [`SrtError::NoServer`].
pub const SRT_ENOSERVER: i32 = 1001;

/// Number of [`SrtError::ConnRej`].
pub const SRT_ECONNREJ: i32 = 1002;

/// Number of [`SrtError::SockFail`].
pub const SRT_ESOCKFAIL: i32 = 1003;

/// Number of [`SrtError::SecFail`].
pub const SRT_ESECFAIL: i32 = 1004;

/// Number of [`SrtError::Closed`].
pub const SRT_ESCLOSED: i32 = 1005;

/// Number of [`SrtError::ConnFail`].
pub const SRT_ECONNFAIL: i32 = 2000;

/// Number of [`SrtError::ConnLost`].
pub const SRT_ECONNLOST: i32 = 2001;

/// Number of [`SrtError::NoConn`].
pub const SRT_ENOCONN: i32 = 2002;

/// Number of [`SrtError::Resource`].
pub const SRT_ERESOURCE: i32 = 3000;

/// Number of [`SrtError::Thread`].
pub const SRT_ETHREAD: i32 = 3001;

/// Number of [`SrtError::NoBuf`].
pub const SRT_ENOBUF: i32 = 3002;

/// Number of [`SrtError::SysObj`].
pub const SRT_ESYSOBJ: i32 = 3003;

/// Number of [`SrtError::File`].
pub const SRT_EFILE: i32 = 4000;

/// Number of [`SrtError::InvRdOff`].
pub const SRT_EINVRDOFF: i32 = 4001;

/// Number of [`SrtError::RdPerm`].
pub const SRT_ERDPERM: i32 = 4002;

/// Number of [`SrtError::InvWrOff`].
pub const SRT_EINVWROFF: i32 = 4003;

/// Number of [`SrtError::WrPerm`].
pub const SRT_EWRPERM: i32 = 4004;

/// Number of [`SrtError::InvOp`].
pub const SRT_EINVOP: i32 = 5000;

/// Number of [`SrtError::BoundSock`].
pub const SRT_EBOUNDSOCK: i32 = 5001;

/// Number of [`SrtError::ConnSock`].
pub const SRT_ECONNSOCK: i32 = 5002;

/// Number of [`SrtError::InvParam`].
pub const SRT_EINVPARAM: i32 = 5003;

/// Number of [`SrtError::InvSock`].
pub const SRT_EINVSOCK: i32 = 5004;

/// Number of [`SrtError::UnboundSock`].
pub const SRT_EUNBOUNDSOCK: i32 = 5005;

/// Number of [`SrtError::NoListen`].
pub const SRT_ENOLISTEN: i32 = 5006;

/// Number of [`SrtError::RdvNoServ`].
pub const SRT_ERDVNOSERV: i32 = 5007;

/// Number of [`SrtError::RdvUnbound`].
pub const SRT_ERDVUNBOUND: i32 = 5008;

/// Number of [`SrtError::InvalMsgApi`].
pub const SRT_EINVALMSGAPI: i32 = 5009;

/// Number of [`SrtError::InvalBufferApi`].
pub const SRT_EINVALBUFFERAPI: i32 = 5010;

/// Number of [`SrtError::DupListen`].
pub const SRT_EDUPLISTEN: i32 = 5011;

/// Number of [`SrtError::LargeMsg`].
pub const SRT_ELARGEMSG: i32 = 5012;

/// Number of [`SrtError::InvPollId`].
pub const SRT_EINVPOLLID: i32 = 5013;

/// Number of [`SrtError::PollEmpty`].
pub const SRT_EPOLLEMPTY: i32 = 5014;

/// Number of [`SrtError::AsyncFail`].
pub const SRT_EASYNCFAIL: i32 = 6000;

/// Number of [`SrtError::AsyncSnd`].
pub const SRT_EASYNCSND: i32 = 6001;

/// Number of [`SrtError::AsyncRcv`].
pub const SRT_EASYNCRCV: i32 = 6002;

/// Number of [`SrtError::Timeout`].
pub const SRT_ETIMEOUT: i32 = 6003;

/// Number of [`SrtError::Congest`].
pub const SRT_ECONGEST: i32 = 6004;

/// Number of [`SrtError::PeerErr`].
pub const SRT_EPEERERR: i32 = 7000;

/// A failure reported by the transport. Each variant stands for one error
/// number; only `ConnRej` carries more, the reason for the rejection.
#[derive(Clone, Copy, Debug, PartialEq, Eq, Structural)]
pub enum SrtError {
    /// Internal error when setting the right error code.
    Unknown,
    /// The value set when the last error was cleared and no error has occurred
    /// since then.
    Success,
    /// General setup error resulting from internal system state.
    ConnSetup,
    /// Connection timed out while attempting to connect to the remote address.
    NoServer,
    /// Connection has been rejected, for the reason given.
    ConnRej(SrtRejectReason),
    /// An error occurred when trying to call a system function on an internally
    /// used UDP socket.
    SockFail,
    /// A possible tampering with the handshake packets was detected, or
    /// encryption request wasn't properly fulfilled.
    SecFail,
    /// A socket that was vital for an operation called in blocking mode has been
    /// closed during the operation.
    Closed,
    /// General connection failure of unknown details.
    ConnFail,
    /// The socket was properly connected, but the connection has been broken.
    ConnLost,
    /// The socket is not connected.
    NoConn,
    /// System or standard library error reported unexpectedly for unknown
    /// purpose.
    Resource,
    /// System was unable to spawn a new thread when requried.
    Thread,
    /// System was unable to allocate memory for buffers.
    NoBuf,
    /// System was unable to allocate system specific objects.
    SysObj,
    /// General filesystem error (for functions operating with file transmission).
    File,
    /// Failure when trying to read from a given position in the file.
    InvRdOff,
    /// Read permission was denied when trying to read from file.
    RdPerm,
    /// Failed to set position in the written file.
    InvWrOff,
    /// Write permission was denied when trying to write to a file.
    WrPerm,
    /// Invalid operation performed for the current state of a socket.
    InvOp,
    /// The socket is currently bound and the required operation cannot be
    /// performed in this state.
    BoundSock,
    /// The socket is currently connected and therefore performing the required
    /// operation is not possible.
    ConnSock,
    /// Call parameters for API functions have some requirements that were not
    /// satisfied.
    InvParam,
    /// The API function required an ID of an entity (socket or group) and it was
    /// invalid.
    InvSock,
    /// The operation to be performed on a socket requires that it first be
    /// explicitly bound.
    UnboundSock,
    /// The socket passed for the operation is required to be in the listen state.
    NoListen,
    /// The required operation cannot be performed when the socket is set to
    /// rendezvous mode.
    RdvNoServ,
    /// An attempt was made to connect to a socket set to rendezvous mode that was
    /// not first bound.
    RdvUnbound,
    /// The function was used incorrectly in the message API.
    InvalMsgApi,
    /// The function was used incorrectly in the stream (buffer) API.
    InvalBufferApi,
    /// The port tried to be bound for listening is already busy.
    DupListen,
    /// Size exceeded.
    LargeMsg,
    /// The epoll ID passed to an epoll function is invalid.
    InvPollId,
    /// The epoll container currently has no subscribed sockets.
    PollEmpty,
    /// General asynchronous failure (not in use currently).
    AsyncFail,
    /// Sending operation is not ready to perform.
    AsyncSnd,
    /// Receiving operation is not ready to perform.
    AsyncRcv,
    /// The operation timed out.
    Timeout,
    /// With SRTO_TSBPDMODE and SRTO_TLPKTDROP set to true, some packets were
    /// dropped by sender.
    Congest,
    /// Receiver peer is writing to a file that the agent is sending.
    PeerErr,
}

impl SrtError {
    /// The number under which the transport reports this error. The reason
    /// inside `ConnRej` does not enter into it.
    pub open spec fn errno(self) -> int {
        match self {
            SrtError::Unknown => SRT_EUNKNOWN as int,
            SrtError::Success => SRT_SUCCESS as int,
            SrtError::ConnSetup => SRT_ECONNSETUP as int,
            SrtError::NoServer => SRT_ENOSERVER as int,
            SrtError::ConnRej(_) => SRT_ECONNREJ as int,
            SrtError::SockFail => SRT_ESOCKFAIL as int,
            SrtError::SecFail => SRT_ESECFAIL as int,
            SrtError::Closed => SRT_ESCLOSED as int,
            SrtError::ConnFail => SRT_ECONNFAIL as int,
            SrtError::ConnLost => SRT_ECONNLOST as int,
            SrtError::NoConn => SRT_ENOCONN as int,
            SrtError::Resource => SRT_ERESOURCE as int,
            SrtError::Thread => SRT_ETHREAD as int,
            SrtError::NoBuf => SRT_ENOBUF as int,
            SrtError::SysObj => SRT_ESYSOBJ as int,
            SrtError::File => SRT_EFILE as int,
            SrtError::InvRdOff => SRT_EINVRDOFF as int,
            SrtError::RdPerm => SRT_ERDPERM as int,
            SrtError::InvWrOff => SRT_EINVWROFF as int,
            SrtError::WrPerm => SRT_EWRPERM as int,
            SrtError::InvOp => SRT_EINVOP as int,
            SrtError::BoundSock => SRT_EBOUNDSOCK as int,
            SrtError::ConnSock => SRT_ECONNSOCK as int,
            SrtError::InvParam => SRT_EINVPARAM as int,
            SrtError::InvSock => SRT_EINVSOCK as int,
            SrtError::UnboundSock => SRT_EUNBOUNDSOCK as int,
            SrtError::NoListen => SRT_ENOLISTEN as int,
            SrtError::RdvNoServ => SRT_ERDVNOSERV as int,
            SrtError::RdvUnbound => SRT_ERDVUNBOUND as int,
            SrtError::InvalMsgApi => SRT_EINVALMSGAPI as int,
            SrtError::InvalBufferApi => SRT_EINVALBUFFERAPI as int,
            SrtError::DupListen => SRT_EDUPLISTEN as int,
            SrtError::LargeMsg => SRT_ELARGEMSG as int,
            SrtError::InvPollId => SRT_EINVPOLLID as int,
            SrtError::PollEmpty => SRT_EPOLLEMPTY as int,
            SrtError::AsyncFail => SRT_EASYNCFAIL as int,
            SrtError::AsyncSnd => SRT_EASYNCSND as int,
            SrtError::AsyncRcv => SRT_EASYNCRCV as int,
            SrtError::Timeout => SRT_ETIMEOUT as int,
            SrtError::Congest => SRT_ECONGEST as int,
            SrtError::PeerErr => SRT_EPEERERR as int,
        }
    }

    /// The numbers that the transport defines as errors: the two special
    /// values, then for each major category a gapless run of minor codes
    /// that starts at the category's thousand.
    pub open spec fn is_errno(code: int) -> bool {
        ||| code == SRT_EUNKNOWN
        ||| code == SRT_SUCCESS
        ||| SRT_ECONNSETUP <= code <= SRT_ESCLOSED
        ||| SRT_ECONNFAIL <= code <= SRT_ENOCONN
        ||| SRT_ERESOURCE <= code <= SRT_ESYSOBJ
        ||| SRT_EFILE <= code <= SRT_EWRPERM
        ||| SRT_EINVOP <= code <= SRT_EPOLLEMPTY
        ||| SRT_EASYNCFAIL <= code <= SRT_ECONGEST
        ||| code == SRT_EPEERERR
    }

    /// Whether this is a value as it comes out of the error number alone:
    /// the number says that a connection was rejected, not why, so the
    /// reason is still `Unknown`.
    pub open spec fn is_unrefined(self) -> bool {
        self matches SrtError::ConnRej(reason) ==> reason == SrtRejectReason::Unknown
    }

    /// The error that a number stands for, if it stands for one: the
    /// unrefined error whose `errno` it is.
    pub open spec fn classify(code: int) -> Option<SrtError> {
        if exists|e: SrtError| #[trigger] e.errno() == code && e.is_unrefined() {
            Some(choose|e: SrtError| #[trigger] e.errno() == code && e.is_unrefined())
        } else {
            None
        }
    }

    /// Looks a raw error number up. `None` for a number that the transport
    /// does not define.
    pub fn from_errno(err_no: i32) -> (r: Option<SrtError>)
        ensures
            r == SrtError::classify(err_no as int),
            r matches Some(e) ==> e.errno() == err_no && e.is_unrefined(),
            r is Some <==> SrtError::is_errno(err_no as int),
    {
        let r = match err_no {
            SRT_EUNKNOWN => Some(SrtError::Unknown),
            SRT_SUCCESS => Some(SrtError::Success),
            SRT_ECONNSETUP => Some(SrtError::ConnSetup),
            SRT_ENOSERVER => Some(SrtError::NoServer),
            SRT_ECONNREJ => Some(SrtError::ConnRej(SrtRejectReason::Unknown)),
            SRT_ESOCKFAIL => Some(SrtError::SockFail),
            SRT_ESECFAIL => Some(SrtError::SecFail),
            SRT_ESCLOSED => Some(SrtError::Closed),
            SRT_ECONNFAIL => Some(SrtError::ConnFail),
            SRT_ECONNLOST => Some(SrtError::ConnLost),
            SRT_ENOCONN => Some(SrtError::NoConn),
            SRT_ERESOURCE => Some(SrtError::Resource),
            SRT_ETHREAD => Some(SrtError::Thread),
            SRT_ENOBUF => Some(SrtError::NoBuf),
            SRT_ESYSOBJ => Some(SrtError::SysObj),
            SRT_EFILE => Some(SrtError::File),
            SRT_EINVRDOFF => Some(SrtError::InvRdOff),
            SRT_ERDPERM => Some(SrtError::RdPerm),
            SRT_EINVWROFF => Some(SrtError::InvWrOff),
            SRT_EWRPERM => Some(SrtError::WrPerm),
            SRT_EINVOP => Some(SrtError::InvOp),
            SRT_EBOUNDSOCK => Some(SrtError::BoundSock),
            SRT_ECONNSOCK => Some(SrtError::ConnSock),
            SRT_EINVPARAM => Some(SrtError::InvParam),
            SRT_EINVSOCK => Some(SrtError::InvSock),
            SRT_EUNBOUNDSOCK => Some(SrtError::UnboundSock),
            SRT_ENOLISTEN => Some(SrtError::NoListen),
            SRT_ERDVNOSERV => Some(SrtError::RdvNoServ),
            SRT_ERDVUNBOUND => Some(SrtError::RdvUnbound),
            SRT_EINVALMSGAPI => Some(SrtError::InvalMsgApi),
            SRT_EINVALBUFFERAPI => Some(SrtError::InvalBufferApi),
            SRT_EDUPLISTEN => Some(SrtError::DupListen),
            SRT_ELARGEMSG => Some(SrtError::LargeMsg),
            SRT_EINVPOLLID => Some(SrtError::InvPollId),
            SRT_EPOLLEMPTY => Some(SrtError::PollEmpty),
            SRT_EASYNCFAIL => Some(SrtError::AsyncFail),
            SRT_EASYNCSND => Some(SrtError::AsyncSnd),
            SRT_EASYNCRCV => Some(SrtError::AsyncRcv),
            SRT_ETIMEOUT => Some(SrtError::Timeout),
            SRT_ECONGEST => Some(SrtError::Congest),
            SRT_EPEERERR => Some(SrtError::PeerErr),
            _ => None,
        };
        proof {
            SrtError::classify_is_errno(err_no as int);
            if let Some(e) = r {
                SrtError::classify_of_errno(e);
            }
        }
        r
    }

    /// Converts an error number that the transport defines.
    pub fn from(err_no: i32) -> (r: SrtError)
        requires
            SrtError::is_errno(err_no as int),
        ensures
            r.errno() == err_no,
            r.is_unrefined(),
            SrtError::classify(err_no as int) == Some(r),
    {
        match SrtError::from_errno(err_no) {
            Some(e) => e,
            None => unreached(),
        }
    }

    /// Two errors share a number only if they are the same error, or are
    /// both rejections.
    pub proof fn errno_is_injective(a: SrtError, b: SrtError)
        requires
            a.errno() == b.errno(),
        ensures
            a == b || (a is ConnRej && b is ConnRej),
    {
    }

    /// Every error is found again under its own number, and under no
    /// other: its number is one of the defined ones, an unrefined error is
    /// what its number classifies as, and a rejection's number classifies
    /// as the rejection with the reason `Unknown`.
    pub proof fn classify_of_errno(e: SrtError)
        ensures
            SrtError::is_errno(e.errno()),
            e.is_unrefined() ==> SrtError::classify(e.errno()) == Some(e),
            e is ConnRej ==> SrtError::classify(e.errno()) == Some(
                SrtError::ConnRej(SrtRejectReason::Unknown),
            ),
            forall|code: int| SrtError::classify(code) == Some(e) ==> code == e.errno(),
    {
        let plain = match e {
            SrtError::ConnRej(_) => SrtError::ConnRej(SrtRejectReason::Unknown),
            _ => e,
        };
        assert(plain.errno() == e.errno() && plain.is_unrefined());
        let found = choose|v: SrtError| #[trigger] v.errno() == e.errno() && v.is_unrefined();
        SrtError::errno_is_injective(found, plain);
    }

    /// The table has no gaps: the numbers that classify are exactly those
    /// that the transport defines, and what a number classifies as carries
    /// that number and no reason yet.
    pub proof fn classify_is_errno(code: int)
        ensures
            SrtError::classify(code) is Some <==> SrtError::is_errno(code),
            SrtError::classify(code) matches Some(e) ==> e.errno() == code && e.is_unrefined(),
    {
        if SrtError::is_errno(code) {
            let w = SrtError::witness(code);
            assert(w.errno() == code && w.is_unrefined());
        }
    }

    /// A number stands for exactly one error: two unrefined errors with
    /// the same number are one error, and it is what the number classifies
    /// as.
    pub proof fn classify_is_unique(code: int, a: SrtError, b: SrtError)
        requires
            a.errno() == code,
            a.is_unrefined(),
            b.errno() == code,
            b.is_unrefined(),
        ensures
            a == b,
            SrtError::classify(code) == Some(a),
    {
        SrtError::classify_of_errno(a);
    }

    /// Classification depends on the number alone: the same number gives
    /// the same error, whenever and wherever it is looked up.
    pub proof fn classify_is_deterministic(a: int, b: int)
        requires
            a == b,
        ensures
            SrtError::classify(a) == SrtError::classify(b),
    {
    }

    /// An unrefined error for each defined number.
    spec fn witness(code: int) -> SrtError {
        if code == SRT_EUNKNOWN {
            SrtError::Unknown
        } else if code == SRT_SUCCESS {
            SrtError::Success
        } else if code == SRT_ECONNSETUP {
            SrtError::ConnSetup
        } else if code == SRT_ENOSERVER {
            SrtError::NoServer
        } else if code == SRT_ECONNREJ {
            SrtError::ConnRej(SrtRejectReason::Unknown)
        } else if code == SRT_ESOCKFAIL {
            SrtError::SockFail
        } else if code == SRT_ESECFAIL {
            SrtError::SecFail
        } else if code == SRT_ESCLOSED {
            SrtError::Closed
        } else if code == SRT_ECONNFAIL {
            SrtError::ConnFail
        } else if code == SRT_ECONNLOST {
            SrtError::ConnLost
        } else if code == SRT_ENOCONN {
            SrtError::NoConn
        } else if code == SRT_ERESOURCE {
            SrtError::Resource
        } else if code == SRT_ETHREAD {
            SrtError::Thread
        } else if code == SRT_ENOBUF {
            SrtError::NoBuf
        } else if code == SRT_ESYSOBJ {
            SrtError::SysObj
        } else if code == SRT_EFILE {
            SrtError::File
        } else if code == SRT_EINVRDOFF {
            SrtError::InvRdOff
        } else if code == SRT_ERDPERM {
            SrtError::RdPerm
        } else if code == SRT_EINVWROFF {
            SrtError::InvWrOff
        } else if code == SRT_EWRPERM {
            SrtError::WrPerm
        } else if code == SRT_EINVOP {
            SrtError::InvOp
        } else if code == SRT_EBOUNDSOCK {
            SrtError::BoundSock
        } else if code == SRT_ECONNSOCK {
            SrtError::ConnSock
        } else if code == SRT_EINVPARAM {
            SrtError::InvParam
        } else if code == SRT_EINVSOCK {
            SrtError::InvSock
        } else if code == SRT_EUNBOUNDSOCK {
            SrtError::UnboundSock
        } else if code == SRT_ENOLISTEN {
            SrtError::NoListen
        } else if code == SRT_ERDVNOSERV {
            SrtError::RdvNoServ
        } else if code == SRT_ERDVUNBOUND {
            SrtError::RdvUnbound
        } else if code == SRT_EINVALMSGAPI {
            SrtError::InvalMsgApi
        } else if code == SRT_EINVALBUFFERAPI {
            SrtError::InvalBufferApi
        } else if code == SRT_EDUPLISTEN {
            SrtError::DupListen
        } else if code == SRT_ELARGEMSG {
            SrtError::LargeMsg
        } else if code == SRT_EINVPOLLID {
            SrtError::InvPollId
        } else if code == SRT_EPOLLEMPTY {
            SrtError::PollEmpty
        } else if code == SRT_EASYNCFAIL {
            SrtError::AsyncFail
        } else if code == SRT_EASYNCSND {
            SrtError::AsyncSnd
        } else if code == SRT_EASYNCRCV {
            SrtError::AsyncRcv
        } else if code == SRT_ETIMEOUT {
            SrtError::Timeout
        } else if code == SRT_ECONGEST {
            SrtError::Congest
        } else {
            SrtError::PeerErr
        }
    }
}

} // verus!
