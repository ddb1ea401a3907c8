//! The connection state and the request/reply exchange.
//!
//! The caller owns the transport. It opens it, reports the outcome of each
//! write and read, and performs what the connection asks for next: at most
//! one exchange is under way at a time.

use vstd::prelude::*;
use vstd::utf8::encode_utf8;
use crate::auth::{auth_header_for, base64_of, basic_scheme};
use crate::envelope::{decode, decoded_of, request_view, EnvelopeView, Reply, ReplyView};
use crate::error::Error;
use crate::json::{json_text, Json, JsonView};
use crate::options::Options;

verus! {

/// Seconds that a reply may take, counted from the request's transmission.
pub const REPLY_TIMEOUT_SECS: u64 = 10;

/// Where the connection stands in an exchange.
#[derive(Debug, Clone, Copy, PartialEq, Eq, Structural)]
pub enum Phase {
    /// No exchange is under way.
    Idle,
    /// The request with this id is being written.
    Writing { id: i64, no_wait: bool },
    /// The request with this id was written and its reply is awaited.
    AwaitingReply { id: i64 },
}

/// What the transport yielded while a reply was awaited.
#[derive(Debug)]
pub enum Incoming {
    /// A text frame.
    Text(String),
    /// A close frame.
    Close,
    /// A frame of any other kind (binary, ping, pong).
    NonText,
    /// The stream ended without a frame.
    Ended,
    /// Reading failed; the underlying error's message.
    Failed(String),
    /// No frame arrived within the reply budget.
    TimedOut,
}

/// The mathematical model of a [`Connection`].
pub struct ConnectionView {
    pub uri: Seq<char>,
    pub auth_header: Seq<char>,
    pub tls_verify: bool,
    pub issuer: Option<Seq<char>>,
    /// Whether a transport handle is open.
    pub open: bool,
    /// The id that the next request will carry.
    pub next_id: int,
    /// The last error code, 0 after a successful exchange.
    pub errno: int,
    /// The last error message, absent after a successful exchange.
    pub error: Option<Seq<char>>,
    pub phase: Phase,
}

impl ConnectionView {
    /// The id counter starts at 1, and an exchange under way carries the
    /// last id given out, on an open handle.
    pub open spec fn wf(&self) -> bool {
        &&& self.next_id >= 1
        &&& match self.phase {
            Phase::Idle => true,
            Phase::Writing { id, .. } => self.open && id == self.next_id - 1,
            Phase::AwaitingReply { id } => self.open && id == self.next_id - 1,
        }
    }

    /// The parts fixed when the connection was created.
    pub open spec fn same_setup(&self, other: ConnectionView) -> bool {
        &&& self.uri == other.uri
        &&& self.auth_header == other.auth_header
        &&& self.tls_verify == other.tls_verify
        &&& self.issuer == other.issuer
    }

    /// The last-error cache is the same in both.
    pub open spec fn same_cache(&self, other: ConnectionView) -> bool {
        self.errno == other.errno && self.error == other.error
    }
}

pub open spec fn issuer_of(options: Option<Options>) -> Option<Seq<char>> {
    match options {
        Some(o) => match o.issuer {
            Some(s) => Some(s@),
            None => None,
        },
        None => None,
    }
}

pub open spec fn tls_verify_of(options: Option<Options>) -> bool {
    match options {
        Some(o) => o.tls_verify,
        None => true,
    }
}

/// A session with an RPC server: its address and credentials, whether a
/// transport handle is open, the id counter, the last-error cache and the
/// exchange under way.
pub struct Connection {
    uri: String,
    auth_header: String,
    options: Option<Options>,
    open: bool,
    next_id: i64,
    errno: i64,
    error: Option<String>,
    phase: Phase,
}

impl View for Connection {
    type V = ConnectionView;

    closed spec fn view(&self) -> ConnectionView {
        ConnectionView {
            uri: self.uri@,
            auth_header: self.auth_header@,
            tls_verify: tls_verify_of(self.options),
            issuer: issuer_of(self.options),
            open: self.open,
            next_id: self.next_id as int,
            errno: self.errno as int,
            error: match self.error {
                Some(s) => Some(s@),
                None => None,
            },
            phase: self.phase,
        }
    }
}

impl Connection {
    /// A connection to `uri` that authenticates with `api_login`
    /// (`login:secret`). No transport handle is open yet.
    pub fn new(uri: String, api_login: String, options: Option<Options>) -> (r: Self)
        ensures
            r@.wf(),
            r@.uri == uri@,
            r@.auth_header == basic_scheme() + base64_of(encode_utf8(api_login@)),
            r@.tls_verify == tls_verify_of(options),
            r@.issuer == issuer_of(options),
            !r@.open,
            r@.next_id == 1,
            r@.errno == 0,
            r@.error is None,
            r@.phase == Phase::Idle,
    {
        let auth_header = auth_header_for(api_login.as_str());
        Connection {
            uri,
            auth_header,
            options,
            open: false,
            next_id: 1,
            errno: 0,
            error: None,
            phase: Phase::Idle,
        }
    }

    /// The server's address.
    pub fn uri(&self) -> (r: &str)
        ensures
            r@ == self@.uri,
    {
        self.uri.as_str()
    }

    /// The `Authorization` header value sent with the handshake.
    pub fn auth_header(&self) -> (r: &str)
        ensures
            r@ == self@.auth_header,
    {
        self.auth_header.as_str()
    }

    /// Whether the handshake checks the server's certificate.
    pub fn tls_verify(&self) -> (r: bool)
        ensures
            r == self@.tls_verify,
    {
        match &self.options {
            Some(o) => o.tls_verify,
            None => true,
        }
    }

    /// Whether a transport handle is open.
    pub fn is_open(&self) -> (r: bool)
        ensures
            r == self@.open,
    {
        self.open
    }

    /// The id that the next request will carry.
    pub fn next_id(&self) -> (r: i64)
        ensures
            r == self@.next_id,
    {
        self.next_id
    }

    /// Where the connection stands in an exchange.
    pub fn phase(&self) -> (r: Phase)
        ensures
            r == self@.phase,
    {
        self.phase
    }

    /// The last error code: that of the last rejected request, 0 after a
    /// successful exchange.
    pub fn errno(&self) -> (r: i64)
        ensures
            r == self@.errno,
    {
        self.errno
    }

    /// The last error message: that of the last rejected request, absent
    /// after a successful exchange.
    pub fn error(&self) -> (r: Option<String>)
        ensures
            match r {
                Some(s) => self@.error == Some(s@),
                None => self@.error is None,
            },
    {
        match &self.error {
            Some(s) => Some(s.clone()),
            None => None,
        }
    }

    /// Records that the handshake succeeded: the connection now holds an
    /// open transport handle. Returns the issuer name to register with a
    /// fire-and-forget `rpc.set_issuer` call, when the options give one.
    pub fn opened(&mut self) -> (r: Option<String>)
        requires
            old(self)@.wf(),
            old(self)@.phase == Phase::Idle,
        ensures
            final(self)@.wf(),
            final(self)@ == (ConnectionView { open: true, ..old(self)@ }),
            id_step(old(self)@, final(self)@, None),
            match r {
                Some(s) => old(self)@.issuer == Some(s@),
                None => old(self)@.issuer is None,
            },
    {
        self.open = true;
        match &self.options {
            Some(o) => match &o.issuer {
                Some(s) => Some(s.clone()),
                None => None,
            },
            None => None,
        }
    }

    /// Starts an exchange: gives out the next id and returns the text of the
    /// request frame to write. Fails with `ConnectionClosed`, giving out no
    /// id, when no transport handle is open.
    pub fn start_query(&mut self, method: &str, params: Json, no_wait: bool) -> (r: Result<String, Error>)
        requires
            old(self)@.wf(),
            old(self)@.phase == Phase::Idle,
            old(self)@.next_id < i64::MAX,
        ensures
            final(self)@.wf(),
            start_outcome(old(self)@, method@, params@, no_wait, r, final(self)@),
    {
        if !self.open {
            return Err(Error::ConnectionClosed);
        }
        let id = self.next_id;
        self.next_id = id + 1;
        self.phase = Phase::Writing { id, no_wait };
        Ok(crate::envelope::encode_request(method, params, id))
    }

    /// Records the outcome of writing the request frame. A failed write
    /// fails the exchange with `Transport` and keeps the handle. After a
    /// `no_wait` request the exchange ends at once with the accepted
    /// sentinel `true`; otherwise `None` asks for the reply to be read.
    pub fn on_write(&mut self, written: Result<(), String>) -> (r: Option<Result<Json, Error>>)
        requires
            old(self)@.wf(),
            old(self)@.phase is Writing,
        ensures
            final(self)@.wf(),
            write_outcome(old(self)@, written, r, final(self)@),
    {
        match written {
            Err(m) => {
                self.phase = Phase::Idle;
                Some(Err(Error::Transport(m)))
            },
            Ok(()) => match self.phase {
                Phase::Writing { id, no_wait } => {
                    if no_wait {
                        self.phase = Phase::Idle;
                        Some(Ok(Json::Bool(true)))
                    } else {
                        self.phase = Phase::AwaitingReply { id };
                        None
                    }
                },
                _ => None,
            },
        }
    }

    /// Records what the transport yielded while the reply was awaited, and
    /// ends the exchange with its result (see `read_outcome`).
    pub fn on_read(&mut self, incoming: Incoming) -> (r: Result<Json, Error>)
        requires
            old(self)@.wf(),
            old(self)@.phase is AwaitingReply,
        ensures
            final(self)@.wf(),
            read_outcome(old(self)@, incoming, r, final(self)@),
            id_step(old(self)@, final(self)@, None),
    {
        self.phase = Phase::Idle;
        match incoming {
            Incoming::Text(t) => match decode(t.as_str()) {
                Ok(envelope) => match envelope.reply {
                    Reply::Value(v) => {
                        self.errno = 0;
                        self.error = None;
                        Ok(v)
                    },
                    Reply::Failure { code, message } => {
                        self.errno = code;
                        self.error = Some(message.clone());
                        Err(Error::Rpc { code, message })
                    },
                },
                Err(e) => Err(e),
            },
            Incoming::Close => {
                self.open = false;
                Err(Error::ConnectionClosed)
            },
            Incoming::Ended => {
                self.open = false;
                Err(Error::ConnectionClosed)
            },
            Incoming::NonText => Err(Error::InvalidResponse),
            Incoming::Failed(m) => Err(Error::Transport(m)),
            Incoming::TimedOut => Err(Error::Timeout),
        }
    }

    /// Gives up the exchange under way, if any, as when the caller stops
    /// waiting for it. Its id stays used.
    pub fn abandon(&mut self)
        requires
            old(self)@.wf(),
        ensures
            final(self)@.wf(),
            final(self)@ == (ConnectionView { phase: Phase::Idle, ..old(self)@ }),
            id_step(old(self)@, final(self)@, None),
    {
        self.phase = Phase::Idle;
    }

    /// Releases the transport handle. Returns whether one was open, in which
    /// case the caller sends a close frame; closing a closed connection does
    /// nothing.
    pub fn close(&mut self) -> (r: bool)
        requires
            old(self)@.wf(),
            old(self)@.phase == Phase::Idle,
        ensures
            final(self)@.wf(),
            r == old(self)@.open,
            final(self)@ == (ConnectionView { open: false, ..old(self)@ }),
            id_step(old(self)@, final(self)@, None),
    {
        let was_open = self.open;
        self.open = false;
        was_open
    }
}

/// Whether `b` follows `a` by an operation that gave out the id `issued`,
/// or gave out none.
pub open spec fn id_step(a: ConnectionView, b: ConnectionView, issued: Option<int>) -> bool {
    match issued {
        Some(id) => id == a.next_id && b.next_id == a.next_id + 1,
        None => b.next_id == a.next_id,
    }
}

/// How starting an exchange goes, from the state `a` before, the method,
/// params and `no_wait` flag, the result `r` and the state `b` after.
///
/// Without an open handle it fails with `ConnectionClosed` and changes
/// nothing: no id is given out and nothing is written. Otherwise it gives
/// out the next id and returns the request text carrying it.
pub open spec fn start_outcome(
    a: ConnectionView,
    method: Seq<char>,
    params: JsonView,
    no_wait: bool,
    r: Result<String, Error>,
    b: ConnectionView,
) -> bool {
    if !a.open {
        &&& r == Err::<String, Error>(Error::ConnectionClosed)
        &&& b == a
        &&& id_step(a, b, None)
    } else {
        &&& r is Ok
        &&& r->Ok_0@ == json_text(request_view(method, params, a.next_id))
        &&& b == (ConnectionView {
            next_id: a.next_id + 1,
            phase: Phase::Writing { id: a.next_id as i64, no_wait },
            ..a
        })
        &&& id_step(a, b, Some(a.next_id))
    }
}

/// How writing the request frame goes, from the state `a` before, the
/// write's outcome, the result `r` and the state `b` after.
///
/// A failed write ends the exchange with `Transport` and keeps the handle.
/// After a `no_wait` request the exchange ends with the accepted sentinel;
/// otherwise `r` is `None` and the reply is awaited.
pub open spec fn write_outcome(
    a: ConnectionView,
    written: Result<(), String>,
    r: Option<Result<Json, Error>>,
    b: ConnectionView,
) -> bool {
    &&& id_step(a, b, None)
    &&& match written {
        Err(m) => {
            &&& r == Some(Err::<Json, Error>(Error::Transport(m)))
            &&& b == (ConnectionView { phase: Phase::Idle, ..a })
        },
        Ok(_) => if a.phase->Writing_no_wait {
            &&& r matches Some(Ok(v)) && v@ == accepted()
            &&& b == (ConnectionView { phase: Phase::Idle, ..a })
        } else {
            &&& r is None
            &&& b == (ConnectionView { phase: Phase::AwaitingReply { id: a.phase->Writing_id }, ..a })
        },
    }
}

/// The value that a `no_wait` request resolves to.
pub open spec fn accepted() -> JsonView {
    JsonView::Bool(true)
}

/// How an exchange ends once the reply was awaited, from the state `a`
/// before, what the transport yielded, the result `r` and the state `b`
/// after. Every case ends the exchange and keeps the id counter.
///
/// - A text frame is decoded. A result clears the last-error cache and is
///   returned; an error record is cached and returned as `Rpc`; a decoding
///   failure is returned and leaves the cache alone.
/// - A close frame, or the end of the stream, releases the handle and fails
///   with `ConnectionClosed`.
/// - Any other frame fails with `InvalidResponse`, a read failure with
///   `Transport`, and the end of the reply budget with `Timeout`; the
///   handle stays open.
pub open spec fn read_outcome(a: ConnectionView, incoming: Incoming, r: Result<Json, Error>, b: ConnectionView) -> bool {
    &&& b.phase == Phase::Idle
    &&& b.next_id == a.next_id
    &&& b.same_setup(a)
    &&& match incoming {
        Incoming::Text(t) => {
            &&& b.open == a.open
            &&& match decoded_of(t@) {
                Ok(EnvelopeView { reply: ReplyView::Value(v), .. }) => {
                    &&& r matches Ok(x) && x@ == v
                    &&& b.errno == 0
                    &&& b.error is None
                },
                Ok(EnvelopeView { reply: ReplyView::Failure { code, message }, .. }) => {
                    &&& r matches Err(Error::Rpc { code: c, message: m }) && c == code && m@ == message
                    &&& b.errno == code
                    &&& b.error == Some(message)
                },
                Err(e) => r == Err::<Json, Error>(e) && b.same_cache(a),
            }
        },
        Incoming::Close | Incoming::Ended => {
            &&& r == Err::<Json, Error>(Error::ConnectionClosed)
            &&& !b.open
            &&& b.same_cache(a)
        },
        Incoming::NonText => r == Err::<Json, Error>(Error::InvalidResponse) && b.open == a.open && b.same_cache(a),
        Incoming::Failed(m) => r == Err::<Json, Error>(Error::Transport(m)) && b.open == a.open && b.same_cache(a),
        Incoming::TimedOut => r == Err::<Json, Error>(Error::Timeout) && b.open == a.open && b.same_cache(a),
    }
}

/// The ids that one connection gives out strictly increase: in any run of
/// its operations, a request started later carries a larger id, so no id
/// is given out twice.
pub proof fn lemma_ids_strictly_increase(states: Seq<ConnectionView>, issued: Seq<Option<int>>)
    requires
        states.len() == issued.len() + 1,
        forall|i: int| 0 <= i < issued.len() ==> id_step(#[trigger] states[i], states[i + 1], issued[i]),
    ensures
        forall|i: int, j: int|
            0 <= i < j < issued.len() && (#[trigger] issued[i]) is Some && (#[trigger] issued[j]) is Some
                ==> issued[i]->0 < issued[j]->0,
{
    assert forall|i: int, j: int|
        0 <= i < j < issued.len() && (#[trigger] issued[i]) is Some && (#[trigger] issued[j]) is Some
            implies issued[i]->0 < issued[j]->0 by {
        lemma_next_id_monotone(states, issued, i + 1, j);
        assert(id_step(states[i], states[i + 1], issued[i]));
        assert(id_step(states[j], states[j + 1], issued[j]));
    }
}

proof fn lemma_next_id_monotone(states: Seq<ConnectionView>, issued: Seq<Option<int>>, i: int, j: int)
    requires
        states.len() == issued.len() + 1,
        forall|k: int| 0 <= k < issued.len() ==> id_step(#[trigger] states[k], states[k + 1], issued[k]),
        0 <= i <= j < states.len(),
    ensures
        states[i].next_id <= states[j].next_id,
    decreases j - i,
{
    if i < j {
        lemma_next_id_monotone(states, issued, i, j - 1);
        assert(id_step(states[j - 1], states[j], issued[j - 1]));
    }
}

/// A request made while no transport handle is open fails with
/// `ConnectionClosed` and leaves the connection as it was: nothing is
/// written and no id is given out.
pub proof fn lemma_closed_query_fails(
    a: ConnectionView,
    method: Seq<char>,
    params: JsonView,
    no_wait: bool,
    r: Result<String, Error>,
    b: ConnectionView,
)
    requires
        !a.open,
        start_outcome(a, method, params, no_wait, r, b),
    ensures
        r == Err::<String, Error>(Error::ConnectionClosed),
        b == a,
{
}

/// A `no_wait` request, whatever its method and params, resolves to the
/// accepted sentinel once it is written, and the exchange ends there: no
/// read follows.
pub proof fn lemma_no_wait_never_reads(
    a: ConnectionView,
    method: Seq<char>,
    params: JsonView,
    text: Result<String, Error>,
    b: ConnectionView,
    r: Option<Result<Json, Error>>,
    c: ConnectionView,
)
    requires
        a.open,
        start_outcome(a, method, params, true, text, b),
        write_outcome(b, Ok(()), r, c),
    ensures
        r matches Some(Ok(v)) && v@ == accepted(),
        c.phase == Phase::Idle,
{
}

/// After a reply that carries an error record, the cache holds its code and
/// message; after a reply that carries a result, the code is 0 and the
/// message absent.
pub proof fn lemma_error_cache(a: ConnectionView, text: String, r: Result<Json, Error>, b: ConnectionView)
    requires
        read_outcome(a, Incoming::Text(text), r, b),
    ensures
        r matches Err(Error::Rpc { code, message }) ==> b.errno == code && b.error == Some(message@),
        r is Ok ==> b.errno == 0 && b.error is None,
{
}

/// When no reply arrives within the budget the exchange fails with
/// `Timeout`, the handle stays open, and the next request can be started.
pub proof fn lemma_timeout_keeps_handle(
    a: ConnectionView,
    r: Result<Json, Error>,
    b: ConnectionView,
    method: Seq<char>,
    params: JsonView,
    no_wait: bool,
    text: Result<String, Error>,
    c: ConnectionView,
)
    requires
        a.wf(),
        a.phase is AwaitingReply,
        read_outcome(a, Incoming::TimedOut, r, b),
        start_outcome(b, method, params, no_wait, text, c),
    ensures
        r == Err::<Json, Error>(Error::Timeout),
        b.open,
        b.phase == Phase::Idle,
        text is Ok,
{
}

} // verus!
