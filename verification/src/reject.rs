//! Reasons for which a connection attempt was turned down.

use vstd::prelude::*;

verus! {

/// Initial value, also reported while the attempt is still in progress.
pub const SRT_REJ_UNKNOWN: i32 = 0;
/// A system function failed.
pub const SRT_REJ_SYSTEM: i32 = 1;
/// The peer rejected the connection.
pub const SRT_REJ_PEER: i32 = 2;
/// A resource could not be allocated.
pub const SRT_REJ_RESOURCE: i32 = 3;
/// The handshake carried incorrect data.
pub const SRT_REJ_ROGUE: i32 = 4;
/// The listener's backlog was exceeded.
pub const SRT_REJ_BACKLOG: i32 = 5;
/// Internal program error.
pub const SRT_REJ_IPE: i32 = 6;
/// The socket is closing.
pub const SRT_REJ_CLOSE: i32 = 7;
/// The peer is older than the minimum version the agent accepts.
pub const SRT_REJ_VERSION: i32 = 8;
/// Rendezvous cookie collision.
pub const SRT_REJ_RDVCOOKIE: i32 = 9;
/// Wrong password.
pub const SRT_REJ_BADSECRET: i32 = 10;
/// A password was required, or one was sent unexpectedly.
pub const SRT_REJ_UNSECURE: i32 = 11;
/// One side uses the stream API, the other the message API.
pub const SRT_REJ_MESSAGEAPI: i32 = 12;
/// Incompatible congestion controller.
pub const SRT_REJ_CONGESTION: i32 = 13;
/// Incompatible packet filter.
pub const SRT_REJ_FILTER: i32 = 14;
/// Incompatible group.
pub const SRT_REJ_GROUP: i32 = 15;
/// The connection attempt timed out.
pub const SRT_REJ_TIMEOUT: i32 = 16;

/// Why a connection attempt was rejected.
#[derive(Clone, Copy, Debug, PartialEq, Eq, Structural)]
pub enum SrtRejectReason {
    Unknown,
    System,
    Peer,
    Resource,
    Rogue,
    Backlog,
    IPE,
    Close,
    Version,
    RdvCookie,
    BadSecret,
    Unsecure,
    MessageAPI,
    Congestion,
    Filter,
    Group,
    Timeout,
}

impl SrtRejectReason {
    /// The number under which the transport reports this reason.
    pub open spec fn code(self) -> int {
        match self {
            SrtRejectReason::Unknown => SRT_REJ_UNKNOWN as int,
            SrtRejectReason::System => SRT_REJ_SYSTEM as int,
            SrtRejectReason::Peer => SRT_REJ_PEER as int,
            SrtRejectReason::Resource => SRT_REJ_RESOURCE as int,
            SrtRejectReason::Rogue => SRT_REJ_ROGUE as int,
            SrtRejectReason::Backlog => SRT_REJ_BACKLOG as int,
            SrtRejectReason::IPE => SRT_REJ_IPE as int,
            SrtRejectReason::Close => SRT_REJ_CLOSE as int,
            SrtRejectReason::Version => SRT_REJ_VERSION as int,
            SrtRejectReason::RdvCookie => SRT_REJ_RDVCOOKIE as int,
            SrtRejectReason::BadSecret => SRT_REJ_BADSECRET as int,
            SrtRejectReason::Unsecure => SRT_REJ_UNSECURE as int,
            SrtRejectReason::MessageAPI => SRT_REJ_MESSAGEAPI as int,
            SrtRejectReason::Congestion => SRT_REJ_CONGESTION as int,
            SrtRejectReason::Filter => SRT_REJ_FILTER as int,
            SrtRejectReason::Group => SRT_REJ_GROUP as int,
            SrtRejectReason::Timeout => SRT_REJ_TIMEOUT as int,
        }
    }

    /// The numbers that the transport defines as reject reasons: a gapless
    /// run from `SRT_REJ_UNKNOWN` to `SRT_REJ_TIMEOUT`.
    pub open spec fn is_code(code: int) -> bool {
        SRT_REJ_UNKNOWN <= code <= SRT_REJ_TIMEOUT
    }

    /// The reason that a number stands for, if it stands for one: the
    /// reason whose `code` it is.
    pub open spec fn classify(code: int) -> Option<SrtRejectReason> {
        if exists|r: SrtRejectReason| #[trigger] r.code() == code {
            Some(choose|r: SrtRejectReason| #[trigger] r.code() == code)
        } else {
            None
        }
    }

    /// Looks a raw reject-reason number up. `None` for a number that the
    /// transport does not define.
    pub fn from_code(code: i32) -> (r: Option<SrtRejectReason>)
        ensures
            r == SrtRejectReason::classify(code as int),
            r matches Some(v) ==> v.code() == code,
            r is Some <==> SrtRejectReason::is_code(code as int),
    {
        let r = match code {
            SRT_REJ_UNKNOWN => Some(SrtRejectReason::Unknown),
            SRT_REJ_SYSTEM => Some(SrtRejectReason::System),
            SRT_REJ_PEER => Some(SrtRejectReason::Peer),
            SRT_REJ_RESOURCE => Some(SrtRejectReason::Resource),
            SRT_REJ_ROGUE => Some(SrtRejectReason::Rogue),
            SRT_REJ_BACKLOG => Some(SrtRejectReason::Backlog),
            SRT_REJ_IPE => Some(SrtRejectReason::IPE),
            SRT_REJ_CLOSE => Some(SrtRejectReason::Close),
            SRT_REJ_VERSION => Some(SrtRejectReason::Version),
            SRT_REJ_RDVCOOKIE => Some(SrtRejectReason::RdvCookie),
            SRT_REJ_BADSECRET => Some(SrtRejectReason::BadSecret),
            SRT_REJ_UNSECURE => Some(SrtRejectReason::Unsecure),
            SRT_REJ_MESSAGEAPI => Some(SrtRejectReason::MessageAPI),
            SRT_REJ_CONGESTION => Some(SrtRejectReason::Congestion),
            SRT_REJ_FILTER => Some(SrtRejectReason::Filter),
            SRT_REJ_GROUP => Some(SrtRejectReason::Group),
            SRT_REJ_TIMEOUT => Some(SrtRejectReason::Timeout),
            _ => None,
        };
        proof {
            SrtRejectReason::classify_is_code(code as int);
            if let Some(v) = r {
                SrtRejectReason::classify_of_code(v);
            }
        }
        r
    }

    /// Converts a raw reject-reason number that the transport defines.
    pub fn from(code: i32) -> (r: SrtRejectReason)
        requires
            SrtRejectReason::is_code(code as int),
        ensures
            r.code() == code,
            SrtRejectReason::classify(code as int) == Some(r),
    {
        match SrtRejectReason::from_code(code) {
            Some(r) => r,
            None => unreached(),
        }
    }

    /// The variant's name, as it appears in diagnostics.
    pub open spec fn name_text(self) -> Seq<char> {
        match self {
            SrtRejectReason::Unknown => "Unknown"@,
            SrtRejectReason::System => "System"@,
            SrtRejectReason::Peer => "Peer"@,
            SrtRejectReason::Resource => "Resource"@,
            SrtRejectReason::Rogue => "Rogue"@,
            SrtRejectReason::Backlog => "Backlog"@,
            SrtRejectReason::IPE => "IPE"@,
            SrtRejectReason::Close => "Close"@,
            SrtRejectReason::Version => "Version"@,
            SrtRejectReason::RdvCookie => "RdvCookie"@,
            SrtRejectReason::BadSecret => "BadSecret"@,
            SrtRejectReason::Unsecure => "Unsecure"@,
            SrtRejectReason::MessageAPI => "MessageAPI"@,
            SrtRejectReason::Congestion => "Congestion"@,
            SrtRejectReason::Filter => "Filter"@,
            SrtRejectReason::Group => "Group"@,
            SrtRejectReason::Timeout => "Timeout"@,
        }
    }

    /// The variant's name.
    pub fn name(self) -> (r: &'static str)
        ensures
            r@ == self.name_text(),
    {
        match self {
            SrtRejectReason::Unknown => "Unknown",
            SrtRejectReason::System => "System",
            SrtRejectReason::Peer => "Peer",
            SrtRejectReason::Resource => "Resource",
            SrtRejectReason::Rogue => "Rogue",
            SrtRejectReason::Backlog => "Backlog",
            SrtRejectReason::IPE => "IPE",
            SrtRejectReason::Close => "Close",
            SrtRejectReason::Version => "Version",
            SrtRejectReason::RdvCookie => "RdvCookie",
            SrtRejectReason::BadSecret => "BadSecret",
            SrtRejectReason::Unsecure => "Unsecure",
            SrtRejectReason::MessageAPI => "MessageAPI",
            SrtRejectReason::Congestion => "Congestion",
            SrtRejectReason::Filter => "Filter",
            SrtRejectReason::Group => "Group",
            SrtRejectReason::Timeout => "Timeout",
        }
    }

    /// No two reasons share a number.
    pub proof fn code_is_injective(a: SrtRejectReason, b: SrtRejectReason)
        requires
            a.code() == b.code(),
        ensures
            a == b,
    {
    }

    /// Every reason is found again under its own number, and under no other:
    /// a number classifies as `r` exactly when it is `r`'s number.
    pub proof fn classify_of_code(r: SrtRejectReason)
        ensures
            SrtRejectReason::is_code(r.code()),
            SrtRejectReason::classify(r.code()) == Some(r),
            forall|code: int| SrtRejectReason::classify(code) == Some(r) ==> code == r.code(),
    {
        let found = choose|v: SrtRejectReason| #[trigger] v.code() == r.code();
        SrtRejectReason::code_is_injective(found, r);
    }

    /// The table has no gaps: the numbers that classify are exactly the
    /// seventeen that the transport defines, and what a number classifies
    /// as carries that number.
    pub proof fn classify_is_code(code: int)
        ensures
            SrtRejectReason::classify(code) is Some <==> SrtRejectReason::is_code(code),
            SrtRejectReason::classify(code) matches Some(r) ==> r.code() == code,
    {
        if SrtRejectReason::is_code(code) {
            let w = SrtRejectReason::witness(code);
            assert(w.code() == code);
        }
    }

    /// A number stands for exactly one reason: two reasons with the same
    /// number are one reason, and it is what the number classifies as.
    pub proof fn classify_is_unique(code: int, a: SrtRejectReason, b: SrtRejectReason)
        requires
            a.code() == code,
            b.code() == code,
        ensures
            a == b,
            SrtRejectReason::classify(code) == Some(a),
    {
        SrtRejectReason::classify_of_code(a);
    }

    /// Classification depends on the number alone: the same number gives
    /// the same reason, whenever and wherever it is looked up.
    pub proof fn classify_is_deterministic(a: int, b: int)
        requires
            a == b,
        ensures
            SrtRejectReason::classify(a) == SrtRejectReason::classify(b),
    {
    }

    /// A reason for each defined number.
    spec fn witness(code: int) -> SrtRejectReason {
        if code == SRT_REJ_UNKNOWN {
            SrtRejectReason::Unknown
        } else if code == SRT_REJ_SYSTEM {
            SrtRejectReason::System
        } else if code == SRT_REJ_PEER {
            SrtRejectReason::Peer
        } else if code == SRT_REJ_RESOURCE {
            SrtRejectReason::Resource
        } else if code == SRT_REJ_ROGUE {
            SrtRejectReason::Rogue
        } else if code == SRT_REJ_BACKLOG {
            SrtRejectReason::Backlog
        } else if code == SRT_REJ_IPE {
            SrtRejectReason::IPE
        } else if code == SRT_REJ_CLOSE {
            SrtRejectReason::Close
        } else if code == SRT_REJ_VERSION {
            SrtRejectReason::Version
        } else if code == SRT_REJ_RDVCOOKIE {
            SrtRejectReason::RdvCookie
        } else if code == SRT_REJ_BADSECRET {
            SrtRejectReason::BadSecret
        } else if code == SRT_REJ_UNSECURE {
            SrtRejectReason::Unsecure
        } else if code == SRT_REJ_MESSAGEAPI {
            SrtRejectReason::MessageAPI
        } else if code == SRT_REJ_CONGESTION {
            SrtRejectReason::Congestion
        } else if code == SRT_REJ_FILTER {
            SrtRejectReason::Filter
        } else if code == SRT_REJ_GROUP {
            SrtRejectReason::Group
        } else {
            SrtRejectReason::Timeout
        }
    }
}

} // verus!
