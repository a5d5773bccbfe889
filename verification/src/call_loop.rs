//! The records exchanged with the event loop, and the state machine that
//! tracks one call from its first send to its completion.

use std::sync::mpsc::{Receiver, TryRecvError};
use vstd::prelude::*;
use vstd::std_specs::convert::FromSpec;
use vstd::string::StringExecFns;

verus! {

/// The transport's error type. Verified code only carries such a value from
/// the place where the transport reported it to the completion that holds it.
#[verifier::external_type_specification]
#[verifier::external_body]
pub struct ExTransportError(mio_httpc::Error);

/// Ordered name/value pairs, as text.
pub type Pairs = Seq<(Seq<char>, Seq<char>)>;

/// One submission: the identifier, the timeout and the parts of the HTTP
/// request. Immutable once enqueued.
pub struct CallSend {
    pub id: i32,
    pub timeout_ms: u64,
    pub method: String,
    pub host: String,
    pub port: u16,
    pub path_segms: Vec<String>,
    pub use_ssl: bool,
    pub params: Vec<(String, String)>,
    pub headers: Vec<(String, String)>,
    pub body: Vec<u8>,
}

pub struct CallSendView {
    pub id: i32,
    pub timeout_ms: u64,
    pub method: Seq<char>,
    pub host: Seq<char>,
    pub port: u16,
    pub path_segms: Seq<Seq<char>>,
    pub use_ssl: bool,
    pub params: Pairs,
    pub headers: Pairs,
    pub body: Seq<u8>,
}

impl View for CallSend {
    type V = CallSendView;

    open spec fn view(&self) -> CallSendView {
        CallSendView {
            id: self.id,
            timeout_ms: self.timeout_ms,
            method: self.method@,
            host: self.host@,
            port: self.port,
            path_segms: self.path_segms.deep_view(),
            use_ssl: self.use_ssl,
            params: self.params.deep_view(),
            headers: self.headers.deep_view(),
            body: self.body@,
        }
    }
}

/// A successful response: status code, headers in the order received, body.
pub struct CallResponse {
    pub code: u16,
    pub headers: Vec<(String, String)>,
    pub body: Vec<u8>,
}

pub struct CallResponseView {
    pub code: u16,
    pub headers: Pairs,
    pub body: Seq<u8>,
}

impl View for CallResponse {
    type V = CallResponseView;

    open spec fn view(&self) -> CallResponseView {
        CallResponseView { code: self.code, headers: self.headers.deep_view(), body: self.body@ }
    }
}

/// A failed call: which step failed, and the transport's cause.
#[derive(Debug)]
pub struct CallError {
    pub action: &'static str,
    pub err: mio_httpc::Error,
}

pub struct CallErrorView {
    pub action: Seq<char>,
    pub err: mio_httpc::Error,
}

impl View for CallError {
    type V = CallErrorView;

    open spec fn view(&self) -> CallErrorView {
        CallErrorView { action: self.action@, err: self.err }
    }
}

pub type CallResult = Result<CallResponse, CallError>;

/// The terminal result of one call, under the identifier it was submitted with.
pub struct CallRecv {
    pub id: i32,
    pub call_result: CallResult,
}

pub struct CallRecvView {
    pub id: i32,
    pub call_result: Result<CallResponseView, CallErrorView>,
}

impl View for CallRecv {
    type V = CallRecvView;

    open spec fn view(&self) -> CallRecvView {
        CallRecvView {
            id: self.id,
            call_result: match self.call_result {
                Ok(r) => Ok(r@),
                Err(e) => Err(e@),
            },
        }
    }
}

/// The tag of a call that could not be constructed.
pub open spec fn action_create() -> Seq<char> {
    "couldn't create call"@
}

/// The tag of a call whose request could not be sent.
pub open spec fn action_send() -> Seq<char> {
    "couldn't send request"@
}

/// The tag of a call whose response could not be received.
pub open spec fn action_recv() -> Seq<char> {
    "couldn't receive response"@
}

/// The failure completion of call `id` with the given tag and cause.
pub open spec fn failure(id: i32, action: Seq<char>, err: mio_httpc::Error) -> CallRecvView {
    CallRecvView { id, call_result: Err(CallErrorView { action, err }) }
}

/// Which half of the exchange a call is performing.
#[derive(Clone, Copy, Debug, PartialEq, Eq, Structural)]
pub enum State {
    Send,
    Recv,
}

/// The state of one call in flight: its identifier, the transport's
/// reference to it, the phase, and what has been received so far.
pub struct PendingRequest {
    pub id: i32,
    pub call_ref: u64,
    pub state: State,
    pub code: u16,
    pub headers: Vec<(String, String)>,
    pub body: Vec<u8>,
}

pub struct PendingView {
    pub id: i32,
    pub call_ref: u64,
    pub state: State,
    pub code: u16,
    pub headers: Pairs,
    pub body: Seq<u8>,
}

impl View for PendingRequest {
    type V = PendingView;

    open spec fn view(&self) -> PendingView {
        PendingView {
            id: self.id,
            call_ref: self.call_ref,
            state: self.state,
            code: self.code,
            headers: self.headers.deep_view(),
            body: self.body@,
        }
    }
}

/// The state of a call that was just placed: nothing sent, nothing received.
pub open spec fn fresh(id: i32, call_ref: u64) -> PendingView {
    PendingView {
        id,
        call_ref,
        state: State::Send,
        code: 0,
        headers: Seq::empty(),
        body: Seq::empty(),
    }
}

/// The success completion built from what a call has accumulated.
pub open spec fn success(p: PendingView) -> CallRecvView {
    CallRecvView {
        id: p.id,
        call_result: Ok(CallResponseView { code: p.code, headers: p.headers, body: p.body }),
    }
}

impl vstd::std_specs::convert::FromSpecImpl<PendingRequest> for CallRecv {
    open spec fn obeys_from_spec() -> bool {
        true
    }

    open spec fn from_spec(p: PendingRequest) -> CallRecv {
        CallRecv {
            id: p.id,
            call_result: Ok(CallResponse { code: p.code, headers: p.headers, body: p.body }),
        }
    }
}

impl From<PendingRequest> for CallRecv {
    fn from(p: PendingRequest) -> (r: CallRecv) {
        CallRecv {
            id: p.id,
            call_result: Ok(CallResponse { code: p.code, headers: p.headers, body: p.body }),
        }
    }
}

/// A call whose state came from the success conversion completes with
/// exactly what it had accumulated.
pub proof fn lemma_from_pending_is_success(p: PendingRequest)
    ensures
        CallRecv::from_spec(p)@ == success(p@),
{
}

/// How large a response body will be, as the transport announces it with
/// the headers.
#[derive(Clone, Copy, Debug, PartialEq, Eq, Structural)]
pub enum BodySize {
    Sized(usize),
    Streamed,
}

impl BodySize {
    pub open spec fn spec_is_empty(&self) -> bool {
        *self == BodySize::Sized(0)
    }

    /// Whether the body is already known to be empty.
    #[verifier::when_used_as_spec(spec_is_empty)]
    pub fn is_empty(&self) -> (r: bool)
        ensures
            r == self.spec_is_empty(),
    {
        match *self {
            BodySize::Sized(n) => n == 0,
            BodySize::Streamed => false,
        }
    }
}

/// What the transport reported when asked to continue sending.
pub enum SendOutcome {
    /// Unrecoverable error: the call is finished.
    Error(mio_httpc::Error),
    /// Some bytes of the request body went out.
    SentBody(usize),
    /// The transport waits for a request body.
    WaitReqBody,
    /// The request is out; the call now awaits its response.
    Receiving,
    /// The transport considers the request done.
    Done,
    /// Nothing to report yet.
    Wait,
}

/// What the transport reported when asked to continue receiving.
pub enum RecvOutcome {
    /// Unrecoverable error: the call is finished.
    Error(mio_httpc::Error),
    /// Status and headers arrived, with the announced size of the body.
    Response { status: u16, headers: Vec<(String, String)>, body: BodySize },
    /// The body was received.
    ReceivedBody(usize),
    /// The transport hands over a body it had kept itself.
    DoneWithBody(Vec<u8>),
    /// The request has to be sent again; `call_ref` is the reference the
    /// transport now knows the call by.
    Sending { call_ref: u64 },
    /// The transport considers the call done.
    Done,
    /// Nothing to report yet.
    Wait,
}

/// Where a call stands after one report of the transport.
pub enum Step {
    /// Still in flight, reachable by the same reference.
    Waiting(PendingRequest),
    /// Still in flight, about to send again, perhaps under a new reference.
    Resend(PendingRequest),
    /// Done: the completion to deliver.
    Finished(CallRecv),
}

pub enum StepView {
    Waiting(PendingView),
    Resend(PendingView),
    Finished(CallRecvView),
}

impl View for Step {
    type V = StepView;

    open spec fn view(&self) -> StepView {
        match *self {
            Step::Waiting(p) => StepView::Waiting(p@),
            Step::Resend(p) => StepView::Resend(p@),
            Step::Finished(c) => StepView::Finished(c@),
        }
    }
}

/// The call after a report on sending. Outside the send phase the report is
/// dropped. An error finishes the call with the send tag; `Receiving` moves
/// it to the receive phase; any other report changes nothing.
pub open spec fn after_send(p: PendingView, o: SendOutcome) -> StepView {
    if p.state != State::Send {
        StepView::Waiting(p)
    } else {
        match o {
            SendOutcome::Error(e) => StepView::Finished(failure(p.id, action_send(), e)),
            SendOutcome::Receiving => StepView::Waiting(PendingView { state: State::Recv, ..p }),
            _ => StepView::Waiting(p),
        }
    }
}

/// The call after a report on receiving, where `received` is what the
/// transport appended to the body during that step. Outside the receive
/// phase the report is dropped. An error finishes the call with the receive
/// tag. Headers are recorded, and finish the call when the body is known to
/// be empty. A received body finishes the call. A request to send again
/// empties the body, returns to the send phase and records the reference.
/// Any other report only keeps the bytes.
pub open spec fn after_recv(p: PendingView, received: Seq<u8>, o: RecvOutcome) -> StepView {
    if p.state != State::Recv {
        StepView::Waiting(p)
    } else {
        let q = PendingView { body: p.body + received, ..p };
        match o {
            RecvOutcome::Error(e) => StepView::Finished(failure(p.id, action_recv(), e)),
            RecvOutcome::Response { status, headers, body } => {
                let r = PendingView { code: status, headers: headers.deep_view(), ..q };
                if body.spec_is_empty() {
                    StepView::Finished(success(r))
                } else {
                    StepView::Waiting(r)
                }
            },
            RecvOutcome::ReceivedBody(_) => StepView::Finished(success(q)),
            RecvOutcome::Sending { call_ref } => StepView::Resend(
                PendingView { body: Seq::empty(), state: State::Send, call_ref, ..q },
            ),
            _ => StepView::Waiting(q),
        }
    }
}

impl PendingRequest {
    /// The state of a call that was just placed under `call_ref`.
    pub fn new(id: i32, call_ref: u64) -> (p: Self)
        ensures
            p@ == fresh(id, call_ref),
    {
        let p = PendingRequest {
            id,
            call_ref,
            state: State::Send,
            code: 0,
            headers: Vec::new(),
            body: Vec::with_capacity(4096),
        };
        assert(p.headers.deep_view() =~= Seq::empty());
        p
    }

    /// Applies the transport's report on sending.
    pub fn on_send(self, outcome: SendOutcome) -> (s: Step)
        ensures
            s@ == after_send(self@, outcome),
    {
        match self.state {
            State::Recv => Step::Waiting(self),
            State::Send => match outcome {
                SendOutcome::Error(e) => Step::Finished(
                    CallRecv {
                        id: self.id,
                        call_result: Err(CallError { action: "couldn't send request", err: e }),
                    },
                ),
                SendOutcome::Receiving => {
                    let mut p = self;
                    p.state = State::Recv;
                    Step::Waiting(p)
                },
                _ => Step::Waiting(self),
            },
        }
    }

    /// Applies the transport's report on receiving; `received` holds the
    /// bytes that arrived during that step.
    pub fn on_recv(self, received: Vec<u8>, outcome: RecvOutcome) -> (s: Step)
        ensures
            s@ == after_recv(self@, received@, outcome),
    {
        match self.state {
            State::Send => Step::Waiting(self),
            State::Recv => {
                let mut p = self;
                let mut received = received;
                p.body.append(&mut received);
                match outcome {
                    RecvOutcome::Error(e) => Step::Finished(
                        CallRecv {
                            id: p.id,
                            call_result: Err(
                                CallError { action: "couldn't receive response", err: e },
                            ),
                        },
                    ),
                    RecvOutcome::Response { status, headers, body } => {
                        p.code = status;
                        p.headers = headers;
                        if body.is_empty() {
                            proof {
                                lemma_from_pending_is_success(p);
                            }
                            Step::Finished(CallRecv::from(p))
                        } else {
                            Step::Waiting(p)
                        }
                    },
                    RecvOutcome::ReceivedBody(_) => {
                        proof {
                            lemma_from_pending_is_success(p);
                        }
                        Step::Finished(CallRecv::from(p))
                    },
                    RecvOutcome::Sending { call_ref } => {
                        p.body.clear();
                        p.state = State::Send;
                        p.call_ref = call_ref;
                        Step::Resend(p)
                    },
                    _ => Step::Waiting(p),
                }
            },
        }
    }
}

/// The loop's reading of a blocking receive on the inbound channel: a message
/// is a submission, an error means that every sender is gone.
pub open spec fn intake_of_recv<E>(r: Result<CallSend, E>) -> Option<Option<CallSend>> {
    match r {
        Ok(c) => Some(Some(c)),
        Err(_) => None,
    }
}

/// The loop's reading of a non-blocking receive: a message is a submission,
/// and without one the loop goes on. That holds of a disconnected channel
/// too: the loop looks for submissions without waiting only while calls are
/// in flight, and those are still to be completed.
pub open spec fn intake_of_try_recv(r: Result<CallSend, TryRecvError>) -> Option<
    Option<CallSend>,
> {
    match r {
        Ok(c) => Some(Some(c)),
        Err(TryRecvError::Empty) => Some(None),
        Err(TryRecvError::Disconnected) => Some(None),
    }
}

/// Reads a blocking receive as the loop does.
pub fn read_recv<E>(r: Result<CallSend, E>) -> (out: Option<Option<CallSend>>)
    ensures
        out == intake_of_recv(r),
{
    match r {
        Ok(c) => Some(Some(c)),
        Err(_) => None,
    }
}

/// Reads a non-blocking receive as the loop does.
pub fn read_try_recv(r: Result<CallSend, TryRecvError>) -> (out: Option<Option<CallSend>>)
    ensures
        out == intake_of_try_recv(r),
{
    match r {
        Ok(c) => Some(Some(c)),
        Err(TryRecvError::Empty) => Some(None),
        Err(TryRecvError::Disconnected) => Some(None),
    }
}

/// Takes the next submission from the inbound channel. With `block` it waits
/// for one; without, it returns at once. `None` tells the loop to end,
/// `Some(None)` to go on without a submission. What arrives is up to the
/// senders; a blocking attempt gives a submission or ends the loop, and an
/// attempt that does not block never ends it.
pub fn get_call_send(inq: &Receiver<CallSend>, block: bool) -> (r: Option<Option<CallSend>>)
    ensures
        block ==> r != Some(None::<CallSend>),
        !block ==> r is Some,
{
    if block {
        read_recv(inq.recv())
    } else {
        read_try_recv(inq.try_recv())
    }
}

/// The request handed to the transport for one submission.
pub struct CallPlan {
    pub method: String,
    pub host: String,
    pub port: u16,
    pub path_segms: Vec<String>,
    pub use_ssl: bool,
    pub timeout_ms: u64,
    /// How many redirects the transport may follow by itself.
    pub max_redirects: u8,
    /// Whether compressed responses are accepted.
    pub gzip: bool,
    pub params: Vec<(String, String)>,
    pub headers: Vec<(String, String)>,
    /// The request body, where there is one.
    pub body: Option<Vec<u8>>,
}

pub struct CallPlanView {
    pub method: Seq<char>,
    pub host: Seq<char>,
    pub port: u16,
    pub path_segms: Seq<Seq<char>>,
    pub use_ssl: bool,
    pub timeout_ms: u64,
    pub max_redirects: u8,
    pub gzip: bool,
    pub params: Pairs,
    pub headers: Pairs,
    pub body: Option<Seq<u8>>,
}

impl View for CallPlan {
    type V = CallPlanView;

    open spec fn view(&self) -> CallPlanView {
        CallPlanView {
            method: self.method@,
            host: self.host@,
            port: self.port,
            path_segms: self.path_segms.deep_view(),
            use_ssl: self.use_ssl,
            timeout_ms: self.timeout_ms,
            max_redirects: self.max_redirects,
            gzip: self.gzip,
            params: self.params.deep_view(),
            headers: self.headers.deep_view(),
            body: match self.body {
                Some(b) => Some(b@),
                None => None,
            },
        }
    }
}

/// The request for a submission: its own fields, no redirects followed by
/// the transport, compression accepted, a header that tells the server not
/// to answer from a cache after the submission's own headers, and a body
/// only where the submission has a non-empty one.
pub open spec fn plan_of(c: CallSendView) -> CallPlanView {
    CallPlanView {
        method: c.method,
        host: c.host,
        port: c.port,
        path_segms: c.path_segms,
        use_ssl: c.use_ssl,
        timeout_ms: c.timeout_ms,
        max_redirects: 0,
        gzip: true,
        params: c.params,
        headers: c.headers.push(("Cache-Control"@, "no-cache"@)),
        body: if c.body.len() == 0 {
            None
        } else {
            Some(c.body)
        },
    }
}

/// Builds the request for the transport from a submission.
pub fn create_call(call_send: CallSend) -> (plan: CallPlan)
    ensures
        plan@ == plan_of(call_send@),
{
    let ghost before = call_send.headers.deep_view();
    let mut headers = call_send.headers;
    let name = String::from_str("Cache-Control");
    let value = String::from_str("no-cache");
    headers.push((name, value));
    assert(headers.deep_view() =~= before.push(("Cache-Control"@, "no-cache"@)));
    let body = if call_send.body.is_empty() {
        None
    } else {
        Some(call_send.body)
    };
    CallPlan {
        method: call_send.method,
        host: call_send.host,
        port: call_send.port,
        path_segms: call_send.path_segms,
        use_ssl: call_send.use_ssl,
        timeout_ms: call_send.timeout_ms,
        max_redirects: 0,
        gzip: true,
        params: call_send.params,
        headers,
        body,
    }
}

/// The completion for a submission whose call the transport could not
/// construct.
pub fn construction_failed(id: i32, err: mio_httpc::Error) -> (c: CallRecv)
    ensures
        c@ == failure(id, action_create(), err),
{
    CallRecv { id, call_result: Err(CallError { action: "couldn't create call", err }) }
}

} // verus!
