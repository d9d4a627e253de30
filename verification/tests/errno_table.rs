use srt_error::error::{
    SRT_EUNKNOWN, SRT_SUCCESS, SRT_ECONNSETUP, SRT_ENOSERVER, SRT_ECONNREJ, SRT_ESOCKFAIL, SRT_ESECFAIL, SRT_ESCLOSED, SRT_ECONNFAIL, SRT_ECONNLOST, SRT_ENOCONN, SRT_ERESOURCE, SRT_ETHREAD, SRT_ENOBUF, SRT_ESYSOBJ, SRT_EFILE, SRT_EINVRDOFF, SRT_ERDPERM, SRT_EINVWROFF, SRT_EWRPERM, SRT_EINVOP, SRT_EBOUNDSOCK, SRT_ECONNSOCK, SRT_EINVPARAM, SRT_EINVSOCK, SRT_EUNBOUNDSOCK, SRT_ENOLISTEN, SRT_ERDVNOSERV, SRT_ERDVUNBOUND, SRT_EINVALMSGAPI, SRT_EINVALBUFFERAPI, SRT_EDUPLISTEN, SRT_ELARGEMSG, SRT_EINVPOLLID, SRT_EPOLLEMPTY, SRT_EASYNCFAIL, SRT_EASYNCSND, SRT_EASYNCRCV, SRT_ETIMEOUT, SRT_ECONGEST, SRT_EPEERERR,
};
use srt_error::{SrtError, SrtRejectReason};

#[test]
fn errno_constants_have_the_protocol_values() {
    assert_eq!(SRT_EUNKNOWN, -1);
    assert_eq!(SRT_SUCCESS, 0);
    assert_eq!(SRT_ECONNSETUP, 1000);
    assert_eq!(SRT_ENOSERVER, 1001);
    assert_eq!(SRT_ECONNREJ, 1002);
    assert_eq!(SRT_ESOCKFAIL, 1003);
    assert_eq!(SRT_ESECFAIL, 1004);
    assert_eq!(SRT_ESCLOSED, 1005);
    assert_eq!(SRT_ECONNFAIL, 2000);
    assert_eq!(SRT_ECONNLOST, 2001);
    assert_eq!(SRT_ENOCONN, 2002);
    assert_eq!(SRT_ERESOURCE, 3000);
    assert_eq!(SRT_ETHREAD, 3001);
    assert_eq!(SRT_ENOBUF, 3002);
    assert_eq!(SRT_ESYSOBJ, 3003);
    assert_eq!(SRT_EFILE, 4000);
    assert_eq!(SRT_EINVRDOFF, 4001);
    assert_eq!(SRT_ERDPERM, 4002);
    assert_eq!(SRT_EINVWROFF, 4003);
    assert_eq!(SRT_EWRPERM, 4004);
    assert_eq!(SRT_EINVOP, 5000);
    assert_eq!(SRT_EBOUNDSOCK, 5001);
    assert_eq!(SRT_ECONNSOCK, 5002);
    assert_eq!(SRT_EINVPARAM, 5003);
    assert_eq!(SRT_EINVSOCK, 5004);
    assert_eq!(SRT_EUNBOUNDSOCK, 5005);
    assert_eq!(SRT_ENOLISTEN, 5006);
    assert_eq!(SRT_ERDVNOSERV, 5007);
    assert_eq!(SRT_ERDVUNBOUND, 5008);
    assert_eq!(SRT_EINVALMSGAPI, 5009);
    assert_eq!(SRT_EINVALBUFFERAPI, 5010);
    assert_eq!(SRT_EDUPLISTEN, 5011);
    assert_eq!(SRT_ELARGEMSG, 5012);
    assert_eq!(SRT_EINVPOLLID, 5013);
    assert_eq!(SRT_EPOLLEMPTY, 5014);
    assert_eq!(SRT_EASYNCFAIL, 6000);
    assert_eq!(SRT_EASYNCSND, 6001);
    assert_eq!(SRT_EASYNCRCV, 6002);
    assert_eq!(SRT_ETIMEOUT, 6003);
    assert_eq!(SRT_ECONGEST, 6004);
    assert_eq!(SRT_EPEERERR, 7000);
}

#[test]
fn every_defined_errno_maps_to_its_variant() {
    assert_eq!(SrtError::from(-1), SrtError::Unknown);
    assert_eq!(SrtError::from_errno(SRT_EUNKNOWN), Some(SrtError::Unknown));
    assert_eq!(SrtError::from(0), SrtError::Success);
    assert_eq!(SrtError::from_errno(SRT_SUCCESS), Some(SrtError::Success));
    assert_eq!(SrtError::from(1000), SrtError::ConnSetup);
    assert_eq!(SrtError::from_errno(SRT_ECONNSETUP), Some(SrtError::ConnSetup));
    assert_eq!(SrtError::from(1001), SrtError::NoServer);
    assert_eq!(SrtError::from_errno(SRT_ENOSERVER), Some(SrtError::NoServer));
    assert_eq!(SrtError::from(1002), SrtError::ConnRej(SrtRejectReason::Unknown));
    assert_eq!(SrtError::from_errno(SRT_ECONNREJ), Some(SrtError::ConnRej(SrtRejectReason::Unknown)));
    assert_eq!(SrtError::from(1003), SrtError::SockFail);
    assert_eq!(SrtError::from_errno(SRT_ESOCKFAIL), Some(SrtError::SockFail));
    assert_eq!(SrtError::from(1004), SrtError::SecFail);
    assert_eq!(SrtError::from_errno(SRT_ESECFAIL), Some(SrtError::SecFail));
    assert_eq!(SrtError::from(1005), SrtError::Closed);
    assert_eq!(SrtError::from_errno(SRT_ESCLOSED), Some(SrtError::Closed));
    assert_eq!(SrtError::from(2000), SrtError::ConnFail);
    assert_eq!(SrtError::from_errno(SRT_ECONNFAIL), Some(SrtError::ConnFail));
    assert_eq!(SrtError::from(2001), SrtError::ConnLost);
    assert_eq!(SrtError::from_errno(SRT_ECONNLOST), Some(SrtError::ConnLost));
    assert_eq!(SrtError::from(2002), SrtError::NoConn);
    assert_eq!(SrtError::from_errno(SRT_ENOCONN), Some(SrtError::NoConn));
    assert_eq!(SrtError::from(3000), SrtError::Resource);
    assert_eq!(SrtError::from_errno(SRT_ERESOURCE), Some(SrtError::Resource));
    assert_eq!(SrtError::from(3001), SrtError::Thread);
    assert_eq!(SrtError::from_errno(SRT_ETHREAD), Some(SrtError::Thread));
    assert_eq!(SrtError::from(3002), SrtError::NoBuf);
    assert_eq!(SrtError::from_errno(SRT_ENOBUF), Some(SrtError::NoBuf));
    assert_eq!(SrtError::from(3003), SrtError::SysObj);
    assert_eq!(SrtError::from_errno(SRT_ESYSOBJ), Some(SrtError::SysObj));
    assert_eq!(SrtError::from(4000), SrtError::File);
    assert_eq!(SrtError::from_errno(SRT_EFILE), Some(SrtError::File));
    assert_eq!(SrtError::from(4001), SrtError::InvRdOff);
    assert_eq!(SrtError::from_errno(SRT_EINVRDOFF), Some(SrtError::InvRdOff));
    assert_eq!(SrtError::from(4002), SrtError::RdPerm);
    assert_eq!(SrtError::from_errno(SRT_ERDPERM), Some(SrtError::RdPerm));
    assert_eq!(SrtError::from(4003), SrtError::InvWrOff);
    assert_eq!(SrtError::from_errno(SRT_EINVWROFF), Some(SrtError::InvWrOff));
    assert_eq!(SrtError::from(4004), SrtError::WrPerm);
    assert_eq!(SrtError::from_errno(SRT_EWRPERM), Some(SrtError::WrPerm));
    assert_eq!(SrtError::from(5000), SrtError::InvOp);
    assert_eq!(SrtError::from_errno(SRT_EINVOP), Some(SrtError::InvOp));
    assert_eq!(SrtError::from(5001), SrtError::BoundSock);
    assert_eq!(SrtError::from_errno(SRT_EBOUNDSOCK), Some(SrtError::BoundSock));
    assert_eq!(SrtError::from(5002), SrtError::ConnSock);
    assert_eq!(SrtError::from_errno(SRT_ECONNSOCK), Some(SrtError::ConnSock));
    assert_eq!(SrtError::from(5003), SrtError::InvParam);
    assert_eq!(SrtError::from_errno(SRT_EINVPARAM), Some(SrtError::InvParam));
    assert_eq!(SrtError::from(5004), SrtError::InvSock);
    assert_eq!(SrtError::from_errno(SRT_EINVSOCK), Some(SrtError::InvSock));
    assert_eq!(SrtError::from(5005), SrtError::UnboundSock);
    assert_eq!(SrtError::from_errno(SRT_EUNBOUNDSOCK), Some(SrtError::UnboundSock));
    assert_eq!(SrtError::from(5006), SrtError::NoListen);
    assert_eq!(SrtError::from_errno(SRT_ENOLISTEN), Some(SrtError::NoListen));
    assert_eq!(SrtError::from(5007), SrtError::RdvNoServ);
    assert_eq!(SrtError::from_errno(SRT_ERDVNOSERV), Some(SrtError::RdvNoServ));
    assert_eq!(SrtError::from(5008), SrtError::RdvUnbound);
    assert_eq!(SrtError::from_errno(SRT_ERDVUNBOUND), Some(SrtError::RdvUnbound));
    assert_eq!(SrtError::from(5009), SrtError::InvalMsgApi);
    assert_eq!(SrtError::from_errno(SRT_EINVALMSGAPI), Some(SrtError::InvalMsgApi));
    assert_eq!(SrtError::from(5010), SrtError::InvalBufferApi);
    assert_eq!(SrtError::from_errno(SRT_EINVALBUFFERAPI), Some(SrtError::InvalBufferApi));
    assert_eq!(SrtError::from(5011), SrtError::DupListen);
    assert_eq!(SrtError::from_errno(SRT_EDUPLISTEN), Some(SrtError::DupListen));
    assert_eq!(SrtError::from(5012), SrtError::LargeMsg);
    assert_eq!(SrtError::from_errno(SRT_ELARGEMSG), Some(SrtError::LargeMsg));
    assert_eq!(SrtError::from(5013), SrtError::InvPollId);
    assert_eq!(SrtError::from_errno(SRT_EINVPOLLID), Some(SrtError::InvPollId));
    assert_eq!(SrtError::from(5014), SrtError::PollEmpty);
    assert_eq!(SrtError::from_errno(SRT_EPOLLEMPTY), Some(SrtError::PollEmpty));
    assert_eq!(SrtError::from(6000), SrtError::AsyncFail);
    assert_eq!(SrtError::from_errno(SRT_EASYNCFAIL), Some(SrtError::AsyncFail));
    assert_eq!(SrtError::from(6001), SrtError::AsyncSnd);
    assert_eq!(SrtError::from_errno(SRT_EASYNCSND), Some(SrtError::AsyncSnd));
    assert_eq!(SrtError::from(6002), SrtError::AsyncRcv);
    assert_eq!(SrtError::from_errno(SRT_EASYNCRCV), Some(SrtError::AsyncRcv));
    assert_eq!(SrtError::from(6003), SrtError::Timeout);
    assert_eq!(SrtError::from_errno(SRT_ETIMEOUT), Some(SrtError::Timeout));
    assert_eq!(SrtError::from(6004), SrtError::Congest);
    assert_eq!(SrtError::from_errno(SRT_ECONGEST), Some(SrtError::Congest));
    assert_eq!(SrtError::from(7000), SrtError::PeerErr);
    assert_eq!(SrtError::from_errno(SRT_EPEERERR), Some(SrtError::PeerErr));
}

#[test]
fn exactly_the_defined_errnos_are_known() {
    let defined: Vec<i32> = vec![
        -1, 0, 1000, 1001, 1002, 1003, 1004, 1005, 2000, 2001, 2002, 3000, 3001, 3002, 3003,
        4000, 4001, 4002, 4003, 4004, 5000, 5001, 5002, 5003, 5004, 5005, 5006, 5007, 5008,
        5009, 5010, 5011, 5012, 5013, 5014, 6000, 6001, 6002, 6003, 6004, 7000,
    ];
    assert_eq!(defined.len(), 41);
    let mut known = 0;
    for code in -2000..9000 {
        let found = SrtError::from_errno(code);
        assert_eq!(found.is_some(), defined.contains(&code), "code {}", code);
        if found.is_some() {
            known += 1;
        }
    }
    assert_eq!(known, 41);
}

#[test]
fn distinct_errnos_give_distinct_variants() {
    let mut seen: Vec<SrtError> = Vec::new();
    for code in -2000..9000 {
        if let Some(e) = SrtError::from_errno(code) {
            assert!(!seen.contains(&e), "code {}", code);
            seen.push(e);
        }
    }
    assert_eq!(seen.len(), 41);
}

#[test]
fn undefined_errnos_are_not_known() {
    assert_eq!(SrtError::from_errno(-2), None);
    assert_eq!(SrtError::from_errno(1), None);
    assert_eq!(SrtError::from_errno(999), None);
    assert_eq!(SrtError::from_errno(1006), None);
    assert_eq!(SrtError::from_errno(2003), None);
    assert_eq!(SrtError::from_errno(3004), None);
    assert_eq!(SrtError::from_errno(4005), None);
    assert_eq!(SrtError::from_errno(5015), None);
    assert_eq!(SrtError::from_errno(6005), None);
    assert_eq!(SrtError::from_errno(7001), None);
    assert_eq!(SrtError::from_errno(i32::MAX), None);
    assert_eq!(SrtError::from_errno(i32::MIN), None);
}

#[test]
fn same_errno_gives_the_same_variant_every_time() {
    for code in -2000..9000 {
        assert_eq!(SrtError::from_errno(code), SrtError::from_errno(code));
    }
    assert_eq!(SrtError::from(6003), SrtError::from(6003));
}

#[test]
fn rejection_comes_without_its_reason() {
    assert_eq!(SrtError::from(SRT_ECONNREJ), SrtError::ConnRej(SrtRejectReason::Unknown));
    assert_ne!(SrtError::from(SRT_ECONNREJ), SrtError::ConnRej(SrtRejectReason::BadSecret));
}
