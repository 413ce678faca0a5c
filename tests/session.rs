use sha2::Digest;
use voltdb_session::config::{IpPort, NodeOpt, Opts};
use voltdb_session::error::VoltError;
use voltdb_session::handshake::{build_login_frame, parse_login_response, ConnInfo};
use voltdb_session::invocation::{encode_invocation, Param};
use voltdb_session::session::{
    block_for_result, on_cycle_end, reset, Dispatch, LoopAction, Node, Response, PING_HANDLE,
};
use voltdb_session::wire::copy_range;

const EMPTY_SHA256: [u8; 32] = [
    0xe3, 0xb0, 0xc4, 0x42, 0x98, 0xfc, 0x1c, 0x14, 0x9a, 0xfb, 0xf4, 0xc8, 0x99, 0x6f, 0xb9, 0x24,
    0x27, 0xae, 0x41, 0xe4, 0x64, 0x9b, 0x93, 0x4c, 0xa4, 0x95, 0x99, 0x1b, 0x78, 0x52, 0xb8, 0x55,
];

fn info() -> ConnInfo {
    ConnInfo { host_id: 3, connection: 9, leader_addr: 0x7f00_0001, build: "v1".to_string() }
}

fn opt(user: Option<&str>, pass: Option<&str>) -> NodeOpt {
    NodeOpt {
        ip_port: IpPort::new("localhost".to_string(), 21212),
        user: user.map(|u| u.to_string()),
        pass: pass.map(|p| p.to_string()),
    }
}

fn login_answer(auth: u8, host: [u8; 4], build: &[u8], len: u32) -> Vec<u8> {
    let mut v = vec![1u8, auth];
    v.extend_from_slice(&host);
    v.extend_from_slice(&42i64.to_be_bytes());
    v.extend_from_slice(&0i64.to_be_bytes());
    v.extend_from_slice(&[127, 0, 0, 1]);
    v.extend_from_slice(&len.to_be_bytes());
    v.extend_from_slice(build);
    v
}

fn response_frame(handle: i64, status: u8) -> Vec<u8> {
    let mut v = vec![0u8];
    v.extend_from_slice(&handle.to_be_bytes());
    v.push(0);
    v.push(status);
    v.extend_from_slice(&[7, 7]);
    v
}

#[test]
fn ip_port_and_opts_keep_their_values() {
    let ip = IpPort::new("db1".to_string(), 21212);
    assert_eq!(ip.ip_host, "db1");
    assert_eq!(ip.port, 21212);
    let o = Opts::new(vec![ip.clone()]);
    assert_eq!(o.ip_ports, vec![ip]);
    assert!(o.user.is_none());
    assert!(o.pass.is_none());
    reset();
}

#[test]
fn login_frame_without_credentials() {
    let f = build_login_frame(&opt(None, None));
    let mut want = vec![0u8, 0, 0, 50, 1, 1, 0, 0, 0, 8];
    want.extend_from_slice(b"database");
    want.extend_from_slice(&[0, 0, 0, 0]);
    want.extend_from_slice(&EMPTY_SHA256);
    assert_eq!(f, want);
}

#[test]
fn login_frame_with_credentials() {
    let f = build_login_frame(&opt(Some("admin"), Some("pw")));
    let mut want = vec![0u8, 0, 0, 55, 1, 1, 0, 0, 0, 8];
    want.extend_from_slice(b"database");
    want.extend_from_slice(&[0, 0, 0, 5]);
    want.extend_from_slice(b"admin");
    want.extend_from_slice(&sha2::Sha256::digest(b"pw"));
    assert_eq!(f, want);
    assert_ne!(&f[f.len() - 32..], &EMPTY_SHA256[..]);
}

#[test]
fn login_accepted_yields_conn_info() {
    let body = login_answer(0, [0, 0, 0, 7], b"abc", 3);
    let info = parse_login_response(&body).unwrap();
    assert_eq!(info.host_id, 7);
    assert_eq!(info.connection, 42);
    assert_eq!(info.leader_addr, 0x7f00_0001);
    assert_eq!(info.build, "abc");
}

#[test]
fn login_negative_host_id() {
    let body = login_answer(0, [0xff, 0xff, 0xff, 0xfe], b"", 0);
    assert_eq!(parse_login_response(&body).unwrap().host_id, -2);
}

#[test]
fn login_refused_is_auth_failed() {
    let body = login_answer(1, [0, 0, 0, 7], b"abc", 3);
    assert_eq!(parse_login_response(&body).unwrap_err(), VoltError::AuthFailed);
    assert_eq!(parse_login_response(&vec![1, 3]).unwrap_err(), VoltError::AuthFailed);
}

#[test]
fn login_truncated_is_decode_error() {
    assert_eq!(parse_login_response(&vec![]).unwrap_err(), VoltError::DecodeError);
    assert_eq!(parse_login_response(&vec![1, 0, 0]).unwrap_err(), VoltError::DecodeError);
    let body = login_answer(0, [0, 0, 0, 7], b"ab", 3);
    assert_eq!(parse_login_response(&body).unwrap_err(), VoltError::DecodeError);
}

#[test]
fn login_invalid_build_string_is_decode_error() {
    let body = login_answer(0, [0, 0, 0, 7], &[0xff], 1);
    assert_eq!(parse_login_response(&body).unwrap_err(), VoltError::DecodeError);
}

#[test]
fn invocation_frame_bytes() {
    let f = encode_invocation(1, "@AdHoc", &vec![Param::Str("SELECT 1".to_string())]);
    let mut want = vec![0u8, 0, 0, 34, 0, 0, 0, 0, 6];
    want.extend_from_slice(b"@AdHoc");
    want.extend_from_slice(&[0, 0, 0, 0, 0, 0, 0, 1, 0, 1, 9, 0, 0, 0, 8]);
    want.extend_from_slice(b"SELECT 1");
    assert_eq!(f, want);
}

#[test]
fn invocation_frame_binary_parameter() {
    let f = encode_invocation(-1, "p", &vec![Param::Bytes(vec![5, 6]), Param::Str(String::new())]);
    let mut want = vec![0u8, 0, 0, 28, 0, 0, 0, 0, 1, b'p'];
    want.extend_from_slice(&[0xff; 8]);
    want.extend_from_slice(&[0, 2, 25, 0, 0, 0, 2, 5, 6, 9, 0, 0, 0, 0]);
    assert_eq!(f, want);
}

#[test]
fn three_calls_get_handles_one_two_three() {
    let mut n: Node<u32> = Node::new(info());
    assert_eq!(n.get_sequence(), 1);
    assert_eq!(n.get_sequence(), 2);
    assert_eq!(n.get_sequence(), 3);
}

#[test]
fn calls_are_filed_under_increasing_handles() {
    let mut n: Node<u32> = Node::new(info());
    let f1 = n.query("SELECT 1", 10).unwrap();
    let f2 = n.list_procedures(20).unwrap();
    let f3 = n.upload_jar(vec![1, 2], 30).unwrap();
    assert_eq!(&f1[15..23], &1i64.to_be_bytes());
    assert_eq!(f1, encode_invocation(1, "@AdHoc", &vec![Param::Str("SELECT 1".to_string())]));
    assert_eq!(
        f2,
        encode_invocation(2, "@SystemCatalog", &vec![Param::Str("PROCEDURES".to_string())])
    );
    assert_eq!(
        f3,
        encode_invocation(
            3,
            "@UpdateClasses",
            &vec![Param::Bytes(vec![1, 2]), Param::Str(String::new())]
        )
    );
    assert_eq!(n.pending_len(), 3);
    assert!(n.is_pending(1) && n.is_pending(2) && n.is_pending(3));
}

#[test]
fn out_of_order_response_reaches_second_caller() {
    let mut n: Node<u32> = Node::new(info());
    n.query("SELECT 1", 10).unwrap();
    n.query("SELECT 2", 20).unwrap();
    match n.dispatch(&response_frame(2, 1)).unwrap() {
        Dispatch::Deliver(req, resp) => {
            assert_eq!(req.channel, 20);
            assert_eq!(req.handle, 2);
            assert!(req.query && req.sync);
            assert_eq!(resp.handle, 2);
            assert_eq!(resp.status, 1);
            assert_eq!(resp.payload, vec![0, 1, 7, 7]);
        }
        _ => panic!("expected a delivery"),
    }
    assert!(n.is_pending(1));
    assert!(!n.is_pending(2));
    match n.dispatch(&response_frame(1, 1)).unwrap() {
        Dispatch::Deliver(req, _) => assert_eq!(req.channel, 10),
        _ => panic!("expected a delivery"),
    }
    assert_eq!(n.pending_len(), 0);
}

#[test]
fn response_for_unknown_handle_is_dropped() {
    let mut n: Node<u32> = Node::new(info());
    n.query("SELECT 1", 10).unwrap();
    match n.dispatch(&response_frame(99, 1)).unwrap() {
        Dispatch::Unmatched(h) => assert_eq!(h, 99),
        _ => panic!("expected the frame to be dropped"),
    }
    assert_eq!(n.pending_len(), 1);
    assert!(n.is_pending(1));
}

#[test]
fn duplicate_response_is_dropped() {
    let mut n: Node<u32> = Node::new(info());
    n.query("SELECT 1", 10).unwrap();
    assert!(matches!(n.dispatch(&response_frame(1, 1)), Ok(Dispatch::Deliver(_, _))));
    assert!(matches!(n.dispatch(&response_frame(1, 1)), Ok(Dispatch::Unmatched(1))));
}

#[test]
fn ping_answer_is_discarded() {
    let mut n: Node<u32> = Node::new(info());
    n.query("SELECT 1", 10).unwrap();
    let f = n.ping().unwrap();
    assert_eq!(&f[14..22], &PING_HANDLE.to_be_bytes());
    assert_eq!(n.pending_len(), 1);
    assert!(!n.is_pending(PING_HANDLE));
    assert!(matches!(n.dispatch(&response_frame(PING_HANDLE, 1)), Ok(Dispatch::Ping)));
    assert_eq!(n.pending_len(), 1);
}

#[test]
fn short_response_frames_are_decode_errors() {
    let mut n: Node<u32> = Node::new(info());
    n.query("SELECT 1", 10).unwrap();
    assert!(matches!(n.dispatch(&vec![0, 0, 0]), Err(VoltError::DecodeError)));
    assert_eq!(n.pending_len(), 1);
    let mut short = vec![0u8];
    short.extend_from_slice(&1i64.to_be_bytes());
    assert!(matches!(n.dispatch(&short), Err(VoltError::DecodeError)));
}

#[test]
fn calls_after_shutdown_fail() {
    let mut n: Node<u32> = Node::new(info());
    n.query("SELECT 1", 10).unwrap();
    n.shutdown();
    assert!(n.stopping());
    assert!(!n.connected());
    assert_eq!(n.query("SELECT 1", 11).unwrap_err(), VoltError::ConnectionNotAvailable);
    assert_eq!(n.list_procedures(12).unwrap_err(), VoltError::ConnectionNotAvailable);
    assert_eq!(n.ping().unwrap_err(), VoltError::ConnectionNotAvailable);
    n.shutdown();
    assert!(n.stopping() && !n.connected());
    assert_eq!(on_cycle_end(n.stopping(), true), LoopAction::Exit);
    assert_eq!(n.info().host_id, 3);
}

#[test]
fn receive_loop_decisions() {
    assert_eq!(on_cycle_end(true, false), LoopAction::Exit);
    assert_eq!(on_cycle_end(true, true), LoopAction::Exit);
    assert_eq!(on_cycle_end(false, true), LoopAction::Report);
    assert_eq!(on_cycle_end(false, false), LoopAction::Continue);
}

#[test]
fn block_for_result_outcomes() {
    let ok = Response { handle: 1, status: 1, payload: vec![1] };
    assert_eq!(block_for_result(Some(ok)).unwrap().payload, vec![1]);
    let bad = Response { handle: 1, status: 254, payload: vec![] };
    assert_eq!(block_for_result(Some(bad)).unwrap_err(), VoltError::ServerReportedError(254));
    assert_eq!(block_for_result(None).unwrap_err(), VoltError::ConnectionNotAvailable);
    assert_eq!(Response { handle: 1, status: 1, payload: vec![] }.has_error(), None);
}

#[test]
fn copy_range_takes_a_slice() {
    assert_eq!(copy_range(&vec![1, 2, 3, 4], 1, 2), vec![2, 3]);
}
