//! The session state shared by callers and the receive loop: the handle
//! counter, the pending-request table and the stop flag, with the decisions
//! made when a call is issued, a response frame arrives or the session ends.
use vstd::prelude::*;
use vstd::string::*;
use std::collections::HashMap;
use crate::error::VoltError;
use crate::handshake::ConnInfo;
use crate::invocation::{
    encode_invocation, lemma_params_one, invocation_fits, invocation_frame, params_bytes, params_view, Param, ParamView};
use crate::wire::{be_value, copy_range, read_be_i64, signed64};

verus! {

broadcast use vstd::std_specs::hash::group_hash_axioms, is_ascii_spec_bytes;

/// The handle of liveness pings; it is never issued to a call.
pub const PING_HANDLE: i64 = 9223372036854775807;

/// The status byte of a response whose operation succeeded.
pub const SUCCESS_STATUS: u8 = 1;

/// Bookkeeping for one outstanding call; `channel` is where its response goes.
pub struct NetworkRequest<C> {
    pub handle: i64,
    pub query: bool,
    pub sync: bool,
    pub num_bytes: i32,
    pub channel: C,
}

/// A response addressed to a call: its handle, the status byte of the
/// response header and every byte after the handle.
#[derive(Debug, Clone)]
pub struct Response {
    pub handle: i64,
    pub status: u8,
    pub payload: Vec<u8>,
}

/// The error a response reports, if any.
pub open spec fn response_error(status: u8) -> Option<VoltError> {
    if status == SUCCESS_STATUS {
        None
    } else {
        Some(VoltError::ServerReportedError(status))
    }
}

impl Response {
    /// The server-reported failure this response carries, if any.
    pub fn has_error(&self) -> (r: Option<VoltError>)
        ensures
            r == response_error(self.status),
    {
        if self.status == SUCCESS_STATUS {
            None
        } else {
            Some(VoltError::ServerReportedError(self.status))
        }
    }
}

/// What the receive loop does with one response frame.
pub enum Dispatch<C> {
    /// The answer to a liveness ping: discarded.
    Ping,
    /// No call waits under this handle: the frame is dropped.
    Unmatched(i64),
    /// The response goes to the channel of the removed request.
    Deliver(NetworkRequest<C>, Response),
}

/// The handle a response frame (without its length prefix) is addressed to.
pub open spec fn frame_handle(body: Seq<u8>) -> int {
    signed64(be_value(body.subrange(1, 9)) as int)
}

/// The state of one connection to a server node.
pub struct Node<C> {
    connected: bool,
    stop: bool,
    info: ConnInfo,
    requests: HashMap<i64, NetworkRequest<C>>,
    counter: i64,
}

impl<C> Node<C> {
    /// The outstanding calls, by handle.
    pub closed spec fn pending(&self) -> Map<i64, NetworkRequest<C>> {
        self.requests@
    }

    /// The handle the next call will get.
    pub closed spec fn next_handle(&self) -> int {
        self.counter as int
    }

    /// A socket is present.
    pub closed spec fn is_connected(&self) -> bool {
        self.connected
    }

    /// The receive loop has been told to stop.
    pub closed spec fn is_stopping(&self) -> bool {
        self.stop
    }

    /// What the server reported at login.
    pub closed spec fn conn_info(&self) -> ConnInfo {
        self.info
    }

    /// Handles start at 1 and stay below the next one, which never passes
    /// the ping handle; each request is filed under its own handle.
    pub closed spec fn wf(&self) -> bool {
        &&& 1 <= self.counter <= PING_HANDLE
        &&& forall|k: i64| #[trigger]
            self.requests@.contains_key(k) ==> 1 <= k < self.counter && self.requests@[k].handle
                == k
    }

    /// The handle the next call gets is not in use by any outstanding call,
    /// so no two filed requests ever share a handle.
    pub proof fn lemma_fresh_handle(&self)
        requires
            self.wf(),
        ensures
            !self.pending().contains_key(self.next_handle() as i64),
    {
    }

    /// Requests filed under two different handles are two different
    /// requests, each carrying the handle it is filed under; so a response
    /// addressed to one handle is never handed to the other's channel.
    pub proof fn lemma_distinct_handles(&self, h1: i64, h2: i64)
        requires
            self.wf(),
            self.pending().contains_key(h1),
            self.pending().contains_key(h2),
            h1 != h2,
        ensures
            self.pending()[h1].handle == h1,
            self.pending()[h2].handle == h2,
            self.pending()[h1] != self.pending()[h2],
    {
    }

    /// The ping handle is never a key of a well-formed table.
    pub proof fn lemma_ping_never_pending(&self)
        requires
            self.wf(),
        ensures
            !self.pending().contains_key(PING_HANDLE),
    {
    }

    /// A connected session after a successful login: no outstanding calls,
    /// the stop flag clear and the first handle 1.
    pub fn new(info: ConnInfo) -> (r: Node<C>)
        ensures
            r.wf(),
            r.pending() == Map::<i64, NetworkRequest<C>>::empty(),
            r.next_handle() == 1,
            r.is_connected(),
            !r.is_stopping(),
            r.conn_info() == info,
    {
        let r = Node { connected: true, stop: false, info, requests: HashMap::new(), counter: 1 };
        assert(r.requests@ =~= Map::<i64, NetworkRequest<C>>::empty());
        r
    }

    /// What the server reported at login.
    pub fn info(&self) -> (r: &ConnInfo)
        ensures
            *r == self.conn_info(),
    {
        &self.info
    }

    /// A socket is present.
    pub fn connected(&self) -> (r: bool)
        ensures
            r == self.is_connected(),
    {
        self.connected
    }

    /// The receive loop has been told to stop.
    pub fn stopping(&self) -> (r: bool)
        ensures
            r == self.is_stopping(),
    {
        self.stop
    }

    /// Number of outstanding calls.
    pub fn pending_len(&self) -> (r: usize)
        ensures
            r == self.pending().len(),
    {
        self.requests.len()
    }

    /// Whether a call waits under `handle`.
    pub fn is_pending(&self, handle: i64) -> (r: bool)
        ensures
            r == self.pending().contains_key(handle),
    {
        self.requests.contains_key(&handle)
    }

    /// Whether another handle can be issued before the ping handle is reached.
    pub fn has_handles_left(&self) -> (r: bool)
        ensures
            r == (self.next_handle() < PING_HANDLE),
    {
        self.counter < PING_HANDLE
    }

    /// Hands out the next request handle: each is one more than the last.
    pub fn get_sequence(&mut self) -> (r: i64)
        requires
            old(self).wf(),
            old(self).next_handle() < PING_HANDLE,
        ensures
            final(self).wf(),
            r == old(self).next_handle(),
            final(self).next_handle() == r + 1,
            final(self).pending() == old(self).pending(),
            final(self).is_connected() == old(self).is_connected(),
            final(self).is_stopping() == old(self).is_stopping(),
            final(self).conn_info() == old(self).conn_info(),
    {
        let r = self.counter;
        self.counter = self.counter + 1;
        r
    }
    /// Issues a call: takes the next handle, files the request under it
    /// with `channel` (before any byte is sent, so that no response can
    /// overtake it), and hands back the frame to send. Without a socket the
    /// request stays filed and the call fails with `ConnectionNotAvailable`.
    pub fn call_sp(&mut self, proc_name: &str, params: &Vec<Param>, channel: C) -> (r: Result<
        Vec<u8>,
        VoltError,
    >)
        requires
            old(self).wf(),
            old(self).next_handle() < PING_HANDLE,
            invocation_fits(proc_name.spec_bytes(), params_view(params@)),
        ensures
            final(self).wf(),
            ({
                let h = old(self).next_handle() as i64;
                let frame = invocation_frame(h, proc_name.spec_bytes(), params_view(params@));
                &&& final(self).next_handle() == h + 1
                &&& final(self).pending() == old(self).pending().insert(
                    h,
                    (NetworkRequest {
                        handle: h,
                        query: true,
                        sync: true,
                        num_bytes: frame.len() as i32,
                        channel,
                    }),
                )
                &&& r is Ok <==> old(self).is_connected()
                &&& r matches Ok(f) ==> f@ == frame
                &&& r is Err ==> r == Err::<Vec<u8>, VoltError>(VoltError::ConnectionNotAvailable)
            }),
            final(self).is_connected() == old(self).is_connected(),
            final(self).is_stopping() == old(self).is_stopping(),
            final(self).conn_info() == old(self).conn_info(),
    {
        let handle = self.get_sequence();
        let frame = encode_invocation(handle, proc_name, params);
        let req = NetworkRequest {
            handle,
            query: true,
            sync: true,
            num_bytes: frame.len() as i32,
            channel,
        };
        self.requests.insert(handle, req);
        if !self.connected {
            return Err(VoltError::ConnectionNotAvailable);
        }
        Ok(frame)
    }

    /// Asks the server for its list of procedures.
    pub fn list_procedures(&mut self, channel: C) -> (r: Result<Vec<u8>, VoltError>)
        requires
            old(self).wf(),
            old(self).next_handle() < PING_HANDLE,
        ensures
            final(self).wf(),
            ({
                let h = old(self).next_handle() as i64;
                let ps = seq![ParamView::Str("PROCEDURES"@)];
                let frame = invocation_frame(h, "@SystemCatalog".spec_bytes(), ps);
                &&& final(self).next_handle() == h + 1
                &&& final(self).pending() == old(self).pending().insert(
                    h,
                    (NetworkRequest {
                        handle: h,
                        query: true,
                        sync: true,
                        num_bytes: frame.len() as i32,
                        channel,
                    }),
                )
                &&& r is Ok <==> old(self).is_connected()
                &&& r matches Ok(f) ==> f@ == frame
                &&& r is Err ==> r == Err::<Vec<u8>, VoltError>(VoltError::ConnectionNotAvailable)
            }),
            final(self).is_connected() == old(self).is_connected(),
            final(self).is_stopping() == old(self).is_stopping(),
            final(self).conn_info() == old(self).conn_info(),
    {
        let mut params: Vec<Param> = Vec::new();
        params.push(Param::Str("PROCEDURES".to_owned()));
        proof {
            reveal_strlit("PROCEDURES");
            reveal_strlit("@SystemCatalog");
            assert(is_ascii("PROCEDURES"));
            assert(is_ascii("@SystemCatalog"));
            lemma_params_one(ParamView::Str("PROCEDURES"@));
            assert("PROCEDURES".spec_bytes().len() == 10);
            assert("@SystemCatalog".spec_bytes().len() == 14);
            assert(params_view(params@) =~= seq![ParamView::Str("PROCEDURES"@)]);
            assert(params_bytes(params_view(params@)).len() == 15);
        }
        self.call_sp("@SystemCatalog", &params, channel)
    }

    /// Runs an ad-hoc SQL statement.
    pub fn query(&mut self, sql: &str, channel: C) -> (r: Result<Vec<u8>, VoltError>)
        requires
            old(self).wf(),
            old(self).next_handle() < PING_HANDLE,
            invocation_fits("@AdHoc".spec_bytes(), seq![ParamView::Str(sql@)]),
        ensures
            final(self).wf(),
            ({
                let h = old(self).next_handle() as i64;
                let frame = invocation_frame(h, "@AdHoc".spec_bytes(), seq![ParamView::Str(sql@)]);
                &&& final(self).next_handle() == h + 1
                &&& final(self).pending() == old(self).pending().insert(
                    h,
                    (NetworkRequest {
                        handle: h,
                        query: true,
                        sync: true,
                        num_bytes: frame.len() as i32,
                        channel,
                    }),
                )
                &&& r is Ok <==> old(self).is_connected()
                &&& r matches Ok(f) ==> f@ == frame
                &&& r is Err ==> r == Err::<Vec<u8>, VoltError>(VoltError::ConnectionNotAvailable)
            }),
            final(self).is_connected() == old(self).is_connected(),
            final(self).is_stopping() == old(self).is_stopping(),
            final(self).conn_info() == old(self).conn_info(),
    {
        let mut params: Vec<Param> = Vec::new();
        params.push(Param::Str(sql.to_owned()));
        assert(params_view(params@) =~= seq![ParamView::Str(sql@)]);
        self.call_sp("@AdHoc", &params, channel)
    }

    /// Uploads a jar of procedure classes.
    pub fn upload_jar(&mut self, bs: Vec<u8>, channel: C) -> (r: Result<Vec<u8>, VoltError>)
        requires
            old(self).wf(),
            old(self).next_handle() < PING_HANDLE,
            invocation_fits(
                "@UpdateClasses".spec_bytes(),
                seq![ParamView::Bytes(bs@), ParamView::Str(Seq::empty())],
            ),
        ensures
            final(self).wf(),
            ({
                let h = old(self).next_handle() as i64;
                let ps = seq![ParamView::Bytes(bs@), ParamView::Str(Seq::empty())];
                let frame = invocation_frame(h, "@UpdateClasses".spec_bytes(), ps);
                &&& final(self).next_handle() == h + 1
                &&& final(self).pending() == old(self).pending().insert(
                    h,
                    (NetworkRequest {
                        handle: h,
                        query: true,
                        sync: true,
                        num_bytes: frame.len() as i32,
                        channel,
                    }),
                )
                &&& r is Ok <==> old(self).is_connected()
                &&& r matches Ok(f) ==> f@ == frame
                &&& r is Err ==> r == Err::<Vec<u8>, VoltError>(VoltError::ConnectionNotAvailable)
            }),
            final(self).is_connected() == old(self).is_connected(),
            final(self).is_stopping() == old(self).is_stopping(),
            final(self).conn_info() == old(self).conn_info(),
    {
        let ghost bv = bs@;
        let mut params: Vec<Param> = Vec::new();
        params.push(Param::Bytes(bs));
        params.push(Param::Str(String::new()));
        proof {
            assert(params_view(params@) =~= seq![ParamView::Bytes(bv), ParamView::Str(Seq::empty())]);
        }
        self.call_sp("@UpdateClasses", &params, channel)
    }

    /// The frame of a liveness ping, addressed with the ping handle; no
    /// request is filed for it.
    pub fn ping(&self) -> (r: Result<Vec<u8>, VoltError>)
        ensures
            r is Ok <==> self.is_connected(),
            r matches Ok(f) ==> f@ == invocation_frame(
                PING_HANDLE,
                "@Ping".spec_bytes(),
                Seq::<ParamView>::empty(),
            ),
            r is Err ==> r == Err::<Vec<u8>, VoltError>(VoltError::ConnectionNotAvailable),
    {
        if !self.connected {
            return Err(VoltError::ConnectionNotAvailable);
        }
        let params: Vec<Param> = Vec::new();
        proof {
            reveal_strlit("@Ping");
            assert(is_ascii("@Ping"));
            assert(params_view(params@) =~= Seq::<ParamView>::empty());
        }
        Ok(encode_invocation(PING_HANDLE, "@Ping", &params))
    }

    /// Ends the session: sets the stop flag and gives up the socket. Calls
    /// still filed are left as they are. Repeating it changes nothing more.
    pub fn shutdown(&mut self)
        requires
            old(self).wf(),
        ensures
            final(self).wf(),
            final(self).is_stopping(),
            !final(self).is_connected(),
            final(self).pending() == old(self).pending(),
            final(self).next_handle() == old(self).next_handle(),
            final(self).conn_info() == old(self).conn_info(),
    {
        self.stop = true;
        self.connected = false;
    }

    /// Dispatches one response frame (the bytes after its length prefix):
    /// a byte that is skipped, the handle, then the response. A ping answer
    /// is discarded; a frame for a handle with no filed request is dropped
    /// and leaves the table as it was; otherwise the request filed under
    /// the handle is removed and handed back with the response.
    pub fn dispatch(&mut self, body: &Vec<u8>) -> (r: Result<Dispatch<C>, VoltError>)
        requires
            old(self).wf(),
        ensures
            final(self).wf(),
            final(self).next_handle() == old(self).next_handle(),
            final(self).is_connected() == old(self).is_connected(),
            final(self).is_stopping() == old(self).is_stopping(),
            final(self).conn_info() == old(self).conn_info(),
            body@.len() < 9 ==> r == Err::<Dispatch<C>, VoltError>(VoltError::DecodeError)
                && final(self).pending() == old(self).pending(),
            body@.len() >= 9 && frame_handle(body@) == PING_HANDLE ==> (r matches Ok(
                Dispatch::Ping,
            ) && final(self).pending() == old(self).pending()),
            body@.len() >= 9 && frame_handle(body@) != PING_HANDLE && !old(
                self,
            ).pending().contains_key(frame_handle(body@) as i64) ==> (r matches Ok(
                Dispatch::Unmatched(u),
            ) && u == frame_handle(body@) && final(self).pending() == old(self).pending()),
            body@.len() >= 9 && frame_handle(body@) != PING_HANDLE && old(
                self,
            ).pending().contains_key(frame_handle(body@) as i64) ==> final(self).pending()
                == old(self).pending().remove(frame_handle(body@) as i64),
            9 <= body@.len() < 11 && frame_handle(body@) != PING_HANDLE && old(
                self,
            ).pending().contains_key(frame_handle(body@) as i64) ==> r == Err::<
                Dispatch<C>,
                VoltError,
            >(VoltError::DecodeError),
            body@.len() >= 11 && frame_handle(body@) != PING_HANDLE && old(
                self,
            ).pending().contains_key(frame_handle(body@) as i64) ==> (r matches Ok(
                Dispatch::Deliver(req, resp),
            ) && req == old(self).pending()[frame_handle(body@) as i64] && req.handle
                == frame_handle(body@) && resp.handle == frame_handle(body@) && resp.status
                == body@[10] && resp.payload@ == body@.subrange(9, body@.len() as int)),
    {
        let n: usize = body.len();
        if n < 9 {
            return Err(VoltError::DecodeError);
        }
        let hb = copy_range(body, 1, 8);
        assert(hb@.subrange(0, 8) =~= body@.subrange(1, 9));
        let handle = read_be_i64(hb.as_slice());
        if handle == PING_HANDLE {
            return Ok(Dispatch::Ping);
        }
        match self.requests.remove(&handle) {
            None => Ok(Dispatch::Unmatched(handle)),
            Some(req) => {
                if n < 11 {
                    return Err(VoltError::DecodeError);
                }
                let status = body[10];
                let payload = copy_range(body, 9, n - 9);
                Ok(Dispatch::Deliver(req, Response { handle, status, payload }))
            },
        }
    }
}

/// Three calls issued one after the other get strictly increasing handles,
/// each one more than the one before.
pub proof fn lemma_handles_increase<C>(
    s0: Node<C>,
    s1: Node<C>,
    s2: Node<C>,
    s3: Node<C>,
    h1: int,
    h2: int,
    h3: int,
)
    requires
        h1 == s0.next_handle() && s1.next_handle() == h1 + 1,
        h2 == s1.next_handle() && s2.next_handle() == h2 + 1,
        h3 == s2.next_handle() && s3.next_handle() == h3 + 1,
    ensures
        h1 < h2 < h3,
        h2 == h1 + 1 && h3 == h2 + 1,
{
}

/// What the receive loop does after a read cycle.
#[derive(Debug, PartialEq, Eq, Structural)]
pub enum LoopAction {
    /// The stop flag is set: leave the loop.
    Exit,
    /// The cycle failed while the session is live: report it and go on.
    Report,
    /// Go on with the next frame.
    Continue,
}

/// The receive loop's decision after a cycle: once the stop flag is set it
/// exits, and a failure that shutdown caused is not reported.
pub fn on_cycle_end(stopping: bool, failed: bool) -> (r: LoopAction)
    ensures
        stopping ==> r == LoopAction::Exit,
        !stopping && failed ==> r == LoopAction::Report,
        !stopping && !failed ==> r == LoopAction::Continue,
{
    if stopping {
        LoopAction::Exit
    } else if failed {
        LoopAction::Report
    } else {
        LoopAction::Continue
    }
}

/// Turns what a wait on a response channel gave into the caller's result:
/// a closed channel means the session is gone, and a response that reports
/// a server-side failure becomes that error.
pub fn block_for_result(received: Option<Response>) -> (r: Result<Response, VoltError>)
    ensures
        received is None ==> r == Err::<Response, VoltError>(VoltError::ConnectionNotAvailable),
        received matches Some(resp) ==> match response_error(resp.status) {
            Some(e) => r == Err::<Response, VoltError>(e),
            None => r matches Ok(x) && x == resp,
        },
{
    match received {
        None => Err(VoltError::ConnectionNotAvailable),
        Some(resp) => match resp.has_error() {
            Some(e) => Err(e),
            None => Ok(resp),
        },
    }
}

/// Kept for callers of the connection API; there is no state to reset.
pub fn reset() {
}

} // verus!
