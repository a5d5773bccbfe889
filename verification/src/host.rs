//! What the binding layer shows the host of a completion: the response, the
//! kind of exception that a failure becomes, and the tags for a log entry.

use crate::call_loop::{CallError, CallRecv, CallResponse, Pairs};
use vstd::prelude::*;
use vstd::string::StringExecFns;

verus! {

/// The three kinds of transport failure that the host tells apart.
#[derive(Clone, Copy, Debug, PartialEq, Eq, Structural)]
pub enum CauseKind {
    /// An error of the operating system's I/O.
    Io,
    /// The call ran out of time.
    TimeOut,
    /// Anything else.
    Other,
}

/// Tells the variants of `mio_httpc::Error` apart: `Io` for its `Io`
/// variant, `TimeOut` for its `TimeOut` variant, `Other` for every other
/// one. Verified code cannot look into the error, so nothing is claimed of
/// the result.
#[verifier::external_body]
fn cause_kind(e: &mio_httpc::Error) -> (k: CauseKind) {
    match e {
        mio_httpc::Error::Io(_) => CauseKind::Io,
        mio_httpc::Error::TimeOut => CauseKind::TimeOut,
        _ => CauseKind::Other,
    }
}

/// Formats a `mio_httpc::Error` with its `Debug` implementation. The text
/// of an operating system error may differ from one machine to the next, so
/// nothing is claimed of the result.
#[verifier::external_body]
pub(crate) fn cause_text(e: &mio_httpc::Error) -> (s: String) {
    format!("{:?}", e)
}

/// The kind of exception the host raises.
#[derive(Clone, Copy, Debug, PartialEq, Eq, Structural)]
pub enum ExcKind {
    Os,
    Timeout,
    Runtime,
}

/// A failure as the host sees it: the kind of exception and its message.
pub struct HostError {
    pub kind: ExcKind,
    pub msg: String,
}

/// The exception kind for a kind of cause.
pub open spec fn exc_kind(k: CauseKind) -> ExcKind {
    match k {
        CauseKind::Io => ExcKind::Os,
        CauseKind::TimeOut => ExcKind::Timeout,
        CauseKind::Other => ExcKind::Runtime,
    }
}

/// The message of an exception: the failed step, a dash, the cause.
pub open spec fn exc_message(action: Seq<char>, detail: Seq<char>) -> Seq<char> {
    action + " - "@ + detail
}

/// The exception for a failed step, given the kind and the text of its cause.
pub fn exception_for(action: &str, kind: CauseKind, detail: &str) -> (e: HostError)
    ensures
        e.kind == exc_kind(kind),
        e.msg@ == exc_message(action@, detail@),
{
    let mut msg = String::from_str(action);
    msg.append(" - ");
    msg.append(detail);
    let kind = match kind {
        CauseKind::Io => ExcKind::Os,
        CauseKind::TimeOut => ExcKind::Timeout,
        CauseKind::Other => ExcKind::Runtime,
    };
    HostError { kind, msg }
}

/// Whether the message of `x` names the failed step of `e` and then some
/// text for its cause.
pub open spec fn is_exception_of(x: HostError, e: CallError) -> bool {
    exists|detail: Seq<char>| x.msg@ == #[trigger] exc_message(e.action@, detail)
}

/// The exception that a failed call becomes: `exception_for` applied to the
/// failed step and to the kind and the text that the transport gives for
/// the cause.
pub fn build_exc(e: &CallError) -> (x: HostError)
    ensures
        is_exception_of(x, *e),
{
    let detail = cause_text(&e.err);
    let x = exception_for(e.action, cause_kind(&e.err), detail.as_str());
    assert(x.msg@ == exc_message(e.action@, detail@));
    x
}

/// The text that stands for a failed call in a log entry.
pub open spec fn error_tag(action: Seq<char>, detail: Seq<char>) -> Seq<char> {
    "CallError { action: \""@ + action + "\", err: "@ + detail + " }"@
}

/// Writes the text that stands for a failed step in a log entry, given the
/// text of its cause.
pub fn error_tag_text(action: &str, detail: &str) -> (s: String)
    ensures
        s@ == error_tag(action@, detail@),
{
    let mut s = String::from_str("CallError { action: \"");
    s.append(action);
    s.append("\", err: ");
    s.append(detail);
    s.append(" }");
    s
}

/// The value of a log tag.
pub enum TagValue {
    Code(u16),
    Length(usize),
    Text(String),
}

pub enum TagValueView {
    Code(u16),
    Length(usize),
    Text(Seq<char>),
}

impl View for TagValue {
    type V = TagValueView;

    open spec fn view(&self) -> TagValueView {
        match *self {
            TagValue::Code(c) => TagValueView::Code(c),
            TagValue::Length(n) => TagValueView::Length(n),
            TagValue::Text(t) => TagValueView::Text(t@),
        }
    }
}

/// Whether `tags` are the log tags of a completion: status code and body
/// length of a response, or the text of the failure with some text for its
/// cause.
pub open spec fn are_tags_of(tags: Seq<(Seq<char>, TagValueView)>, r: CallRecv) -> bool {
    match r.call_result {
        Ok(resp) => tags == seq![
            ("http.code"@, TagValueView::Code(resp.code)),
            ("http.resp_content_length"@, TagValueView::Length(resp.body@.len() as usize)),
        ],
        Err(e) => exists|detail: Seq<char>|
            tags == seq![("error"@, TagValueView::Text(#[trigger] error_tag(e.action@, detail)))],
    }
}

/// The views of a list of tags.
pub open spec fn tags_view(tags: Seq<(String, TagValue)>) -> Seq<(Seq<char>, TagValueView)> {
    Seq::new(tags.len(), |i: int| (tags[i].0@, tags[i].1@))
}

/// Computes the log tags of a completion.
pub fn log_tags(r: &CallRecv) -> (tags: Vec<(String, TagValue)>)
    ensures
        are_tags_of(tags_view(tags@), *r),
{
    let mut tags: Vec<(String, TagValue)> = Vec::new();
    match &r.call_result {
        Ok(resp) => {
            tags.push((String::from_str("http.code"), TagValue::Code(resp.code)));
            tags.push(
                (String::from_str("http.resp_content_length"), TagValue::Length(resp.body.len())),
            );
            assert(tags_view(tags@) =~= seq![
                ("http.code"@, TagValueView::Code(resp.code)),
                ("http.resp_content_length"@, TagValueView::Length(resp.body@.len() as usize)),
            ]);
        },
        Err(e) => {
            let detail = cause_text(&e.err);
            tags.push(
                (
                    String::from_str("error"),
                    TagValue::Text(error_tag_text(e.action, detail.as_str())),
                ),
            );
            assert(tags_view(tags@) =~= seq![
                ("error"@, TagValueView::Text(error_tag(e.action@, detail@))),
            ]);
        },
    }
    tags
}

/// A response as handed to the host.
pub struct HttpResponse {
    code: u16,
    headers: Vec<(String, String)>,
    body: Vec<u8>,
}

pub struct HttpResponseView {
    pub code: u16,
    pub headers: Pairs,
    pub body: Seq<u8>,
}

impl View for HttpResponse {
    type V = HttpResponseView;

    closed spec fn view(&self) -> HttpResponseView {
        HttpResponseView { code: self.code, headers: self.headers.deep_view(), body: self.body@ }
    }
}

/// Copies a list of pairs.
pub fn copy_pairs(pairs: &Vec<(String, String)>) -> (out: Vec<(String, String)>)
    ensures
        out.deep_view() == pairs.deep_view(),
{
    let mut out: Vec<(String, String)> = Vec::new();
    let mut k: usize = 0;
    while k < pairs.len()
        invariant
            k <= pairs.len(),
            out.len() == k,
            forall|j: int| 0 <= j < k ==> out@[j].0@ == pairs@[j].0@ && out@[j].1@ == pairs@[j].1@,
        decreases pairs.len() - k,
    {
        out.push((pairs[k].0.clone(), pairs[k].1.clone()));
        k += 1;
    }
    assert(out.deep_view() =~= pairs.deep_view());
    out
}

/// Copies a run of bytes.
pub fn copy_bytes(bytes: &Vec<u8>) -> (out: Vec<u8>)
    ensures
        out@ == bytes@,
{
    let mut out: Vec<u8> = Vec::new();
    let mut k: usize = 0;
    while k < bytes.len()
        invariant
            k <= bytes.len(),
            out.len() == k,
            forall|j: int| 0 <= j < k ==> out@[j] == bytes@[j],
        decreases bytes.len() - k,
    {
        out.push(bytes[k]);
        k += 1;
    }
    assert(out@ =~= bytes@);
    out
}

impl HttpResponse {
    /// The host's copy of a response.
    pub fn new(resp: &CallResponse) -> (r: Self)
        ensures
            r@.code == resp.code,
            r@.headers == resp.headers.deep_view(),
            r@.body == resp.body@,
    {
        HttpResponse {
            code: resp.code,
            headers: copy_pairs(&resp.headers),
            body: copy_bytes(&resp.body),
        }
    }

    /// The status code.
    pub fn get_code(&self) -> (c: u16)
        ensures
            c == self@.code,
    {
        self.code
    }

    /// The length of the body in bytes.
    pub fn get_content_length(&self) -> (n: usize)
        ensures
            n == self@.body.len(),
    {
        self.body.len()
    }

    /// The headers, in the order received.
    pub fn headers(&self) -> (h: &Vec<(String, String)>)
        ensures
            h.deep_view() == self@.headers,
    {
        &self.headers
    }

    /// The body.
    pub fn get_body(&self) -> (b: &Vec<u8>)
        ensures
            b@ == self@.body,
    {
        &self.body
    }
}

/// What the host gets of a completion: the response of a call that
/// succeeded, the exception of one that failed.
pub fn get(r: &CallRecv) -> (out: Result<HttpResponse, HostError>)
    ensures
        match r.call_result {
            Ok(resp) => out matches Ok(h) && h@.code == resp.code && h@.headers
                == resp.headers.deep_view() && h@.body == resp.body@,
            Err(e) => out matches Err(x) && is_exception_of(x, e),
        },
{
    match &r.call_result {
        Ok(resp) => Ok(HttpResponse::new(resp)),
        Err(e) => Err(build_exc(e)),
    }
}

} // verus!
