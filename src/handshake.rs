//! The authentication handshake: the login frame a client sends and the
//! reading of the server's answer.
use vstd::prelude::*;
use vstd::string::*;
use vstd::utf8::*;
use bytebuffer::ByteBuffer;
use crate::config::NodeOpt;
use crate::error::VoltError;
use crate::wire::{
    be_bytes, be_value, buffer_into_vec, copy_range, new_buffer, put_bytes, put_string, put_u32, put_u8,
    lemma_be_bytes_len, read_be_i32, read_be_i64, read_be_u32, sha256, sha256_of, signed32, signed64, string_field,
};

verus! {

broadcast use is_ascii_spec_bytes;

/// The service a client logs into, as UTF-8 bytes ("database").
pub open spec fn service_name_bytes() -> Seq<u8> {
    seq![100u8, 97u8, 116u8, 97u8, 98u8, 97u8, 115u8, 101u8]
}

/// The login frame without its length prefix: format byte, client bitfield,
/// service name, user name, password digest.
pub open spec fn login_body(user: Seq<u8>, digest: Seq<u8>) -> Seq<u8> {
    seq![1u8, 1u8] + string_field(service_name_bytes()) + string_field(user) + digest
}

/// The login frame: the body's length as four big-endian bytes, then the body.
pub open spec fn login_frame(user: Seq<u8>, digest: Seq<u8>) -> Seq<u8> {
    be_bytes(login_body(user, digest).len() as int, 4) + login_body(user, digest)
}

/// The UTF-8 bytes of an optional string; an absent one counts as empty.
pub open spec fn opt_bytes(s: Option<String>) -> Seq<u8> {
    match s {
        Some(v) => encode_utf8(v@),
        None => Seq::empty(),
    }
}

/// What the server reports about a connection once the login is accepted.
#[derive(Debug, Clone)]
pub struct ConnInfo {
    pub host_id: i32,
    pub connection: i64,
    /// The leader's IPv4 address, most significant octet first.
    pub leader_addr: u32,
    pub build: String,
}

/// Byte length of the server build string announced in a login answer.
pub open spec fn build_len(body: Seq<u8>) -> int {
    be_value(body.subrange(26, 30)) as int
}

/// The server build string's bytes in a login answer.
pub open spec fn build_bytes(body: Seq<u8>) -> Seq<u8> {
    body.subrange(30, 30 + build_len(body))
}

/// The server refused the credentials: the status byte is present and not 0.
pub open spec fn login_refused(body: Seq<u8>) -> bool {
    body.len() >= 2 && body[1] != 0
}

/// The login answer (without its length prefix) is accepted and complete.
pub open spec fn login_accepted(body: Seq<u8>) -> bool {
    &&& body.len() >= 30
    &&& body[1] == 0
    &&& 30 + build_len(body) <= body.len()
    &&& valid_utf8(build_bytes(body))
}

/// Relies on `String::from_utf8`: it succeeds exactly on valid UTF-8 and
/// then holds the characters the bytes encode.
#[verifier::external_body]
fn utf8_string(b: Vec<u8>) -> (r: Option<String>)
    ensures
        r is Some <==> valid_utf8(b@),
        r matches Some(s) ==> s@ == decode_utf8(b@),
{
    String::from_utf8(b).ok()
}

/// Builds the login frame for the given user and password; an absent user
/// is sent as the empty name and an absent password is hashed as empty input.
pub fn build_login_frame(opt: &NodeOpt) -> (r: Vec<u8>)
    requires
        opt_bytes(opt.user).len() + 50 <= u32::MAX,
    ensures
        r@ == login_frame(opt_bytes(opt.user), sha256_of(opt_bytes(opt.pass))),
{
    let user: &str = match &opt.user {
        Some(u) => u.as_str(),
        None => "",
    };
    proof {
        reveal_strlit("");
        reveal_strlit("database");
        assert(is_ascii("database"));
        assert(is_ascii(""));
        assert("database".spec_bytes() =~= service_name_bytes());
        assert(user.spec_bytes() =~= opt_bytes(opt.user));
    }
    let digest: Vec<u8> = match &opt.pass {
        Some(p) => sha256(p.as_str().as_bytes()),
        None => {
            let empty: Vec<u8> = Vec::new();
            sha256(empty.as_slice())
        },
    };
    assert(digest@ == sha256_of(opt_bytes(opt.pass)));
    let body_len: u32 = (user.len() + 50) as u32;
    let mut b: ByteBuffer = new_buffer();
    put_u32(&mut b, body_len);
    put_u8(&mut b, 1);
    put_u8(&mut b, 1);
    put_string(&mut b, "database");
    put_string(&mut b, user);
    put_bytes(&mut b, digest.as_slice());
    let r = buffer_into_vec(b);
    proof {
        let body = login_body(opt_bytes(opt.user), sha256_of(opt_bytes(opt.pass)));
        lemma_be_bytes_len(8, 4);
        lemma_be_bytes_len(opt_bytes(opt.user).len() as int, 4);
        assert(body.len() == body_len);
        assert(r@ =~= login_frame(opt_bytes(opt.user), sha256_of(opt_bytes(opt.pass))));
    }
    r
}

/// Reads the server's answer to a login frame (the bytes after its length
/// prefix): refused credentials give `AuthFailed`, an accepted and complete
/// answer gives the connection information, anything else `DecodeError`.
pub fn parse_login_response(body: &Vec<u8>) -> (r: Result<ConnInfo, VoltError>)
    ensures
        login_refused(body@) <==> r == Err::<ConnInfo, VoltError>(VoltError::AuthFailed),
        login_accepted(body@) <==> r is Ok,
        !login_refused(body@) && !login_accepted(body@) ==> r == Err::<ConnInfo, VoltError>(
            VoltError::DecodeError,
        ),
        r matches Ok(info) ==> {
            &&& info.host_id as int == signed32(be_value(body@.subrange(2, 6)) as int)
            &&& info.connection as int == signed64(be_value(body@.subrange(6, 14)) as int)
            &&& info.leader_addr as int == be_value(body@.subrange(22, 26))
            &&& info.build@ == decode_utf8(build_bytes(body@))
        },
{
    let n: usize = body.len();
    if n < 2 {
        return Err(VoltError::DecodeError);
    }
    if body[1] != 0 {
        return Err(VoltError::AuthFailed);
    }
    if n < 30 {
        return Err(VoltError::DecodeError);
    }
    let host_bytes = copy_range(body, 2, 4);
    let conn_bytes = copy_range(body, 6, 8);
    let leader_bytes = copy_range(body, 22, 4);
    let len_bytes = copy_range(body, 26, 4);
    assert(host_bytes@.subrange(0, 4) =~= host_bytes@);
    assert(conn_bytes@.subrange(0, 8) =~= conn_bytes@);
    assert(leader_bytes@.subrange(0, 4) =~= leader_bytes@);
    assert(len_bytes@.subrange(0, 4) =~= len_bytes@);
    let host_id = read_be_i32(host_bytes.as_slice());
    let connection = read_be_i64(conn_bytes.as_slice());
    let leader_addr = read_be_u32(leader_bytes.as_slice());
    let len = read_be_u32(len_bytes.as_slice());
    if len as usize > n - 30 {
        return Err(VoltError::DecodeError);
    }
    let raw = copy_range(body, 30, len as usize);
    match utf8_string(raw) {
        Some(build) => Ok(ConnInfo { host_id, connection, leader_addr, build }),
        None => Err(VoltError::DecodeError),
    }
}

} // verus!
