//! The host-facing side: it hands out identifiers, forwards submissions to
//! the event loop, files the completions that come back, and answers
//! whether a given identifier, or any of a set, has completed.

use crate::call_loop::{CallRecv, CallSend, CallSendView, Pairs};
use crate::channel::drain_ready;
use std::collections::{HashMap, HashSet};
use std::sync::mpsc::{Receiver, Sender};
use std::sync::Arc;
use vstd::prelude::*;
use vstd::string::StringExecFns;

verus! {

broadcast use vstd::std_specs::hash::group_hash_axioms;

/// Why an operation of the caller did not go through.
#[derive(Clone, Copy, Debug, PartialEq, Eq, Structural)]
pub enum CallerError {
    /// The event loop is gone: a submission could not be forwarded.
    TransportUnavailable,
    /// The identifier is not one that is pending here.
    UnknownId(i32),
    /// The channel of completions is closed while a wait is under way.
    ChannelClosed,
}

/// The decimal digit `d` as a character.
pub open spec fn digit(d: nat) -> char {
    if d == 0 {
        '0'
    } else if d == 1 {
        '1'
    } else if d == 2 {
        '2'
    } else if d == 3 {
        '3'
    } else if d == 4 {
        '4'
    } else if d == 5 {
        '5'
    } else if d == 6 {
        '6'
    } else if d == 7 {
        '7'
    } else if d == 8 {
        '8'
    } else {
        '9'
    }
}

/// `n` in decimal, without sign or leading zeros.
pub open spec fn decimal(n: nat) -> Seq<char>
    decreases n,
{
    if n < 10 {
        seq![digit(n)]
    } else {
        decimal(n / 10).push(digit(n % 10))
    }
}

fn digit_text(d: u64) -> (s: &'static str)
    requires
        d < 10,
    ensures
        s@ == seq![digit(d as nat)],
{
    proof {
        reveal_strlit("0");
        reveal_strlit("1");
        reveal_strlit("2");
        reveal_strlit("3");
        reveal_strlit("4");
        reveal_strlit("5");
        reveal_strlit("6");
        reveal_strlit("7");
        reveal_strlit("8");
        reveal_strlit("9");
    }
    let s = if d == 0 {
        "0"
    } else if d == 1 {
        "1"
    } else if d == 2 {
        "2"
    } else if d == 3 {
        "3"
    } else if d == 4 {
        "4"
    } else if d == 5 {
        "5"
    } else if d == 6 {
        "6"
    } else if d == 7 {
        "7"
    } else if d == 8 {
        "8"
    } else {
        "9"
    };
    assert(s@ =~= seq![digit(d as nat)]);
    s
}

/// Writes `n` in decimal.
pub fn decimal_string(n: u64) -> (s: String)
    ensures
        s@ == decimal(n as nat),
    decreases n,
{
    if n < 10 {
        String::from_str(digit_text(n))
    } else {
        let mut s = decimal_string(n / 10);
        s.append(digit_text(n % 10));
        assert(s@ =~= decimal((n / 10) as nat).push(digit((n % 10) as nat)));
        s
    }
}

/// The second, counted from the epoch, in which a call that is submitted at
/// `now_secs` seconds and `now_nanos` nanoseconds with `timeout_ms`
/// milliseconds to run reaches its deadline.
pub open spec fn deadline_secs(now_secs: u64, now_nanos: u32, timeout_ms: u64) -> int {
    now_secs + timeout_ms / 1000 + (now_nanos + (timeout_ms % 1000) * 1_000_000) / 1_000_000_000
}

/// Computes the deadline of a call.
pub fn deadline(now_secs: u64, now_nanos: u32, timeout_ms: u64) -> (d: u64)
    requires
        deadline_secs(now_secs, now_nanos, timeout_ms) <= u64::MAX,
    ensures
        d == deadline_secs(now_secs, now_nanos, timeout_ms),
{
    let carry: u64 = (now_nanos as u64 + (timeout_ms % 1000) * 1_000_000) / 1_000_000_000;
    now_secs + timeout_ms / 1000 + carry
}

/// The value of the tracing header for a trace and its parent.
pub open spec fn traceparent(trace_id: Seq<char>, parent_id: Seq<char>) -> Seq<char> {
    "00-"@ + trace_id + "-"@ + parent_id + "-00"@
}

/// The headers of a submission as they are enqueued: the caller's own, then
/// the tracing header where a trace is configured, then the client header
/// where a client name is configured, then the deadline.
pub open spec fn stamped(
    headers: Pairs,
    trace: Option<(Seq<char>, Seq<char>)>,
    client: Option<Seq<char>>,
    deadline: int,
) -> Pairs {
    let traced = match trace {
        Some((trace_id, parent_id)) => headers.push(
            ("Traceparent"@, traceparent(trace_id, parent_id)),
        ),
        None => headers,
    };
    let named = match client {
        Some(name) => traced.push(("X-Client"@, name)),
        None => traced,
    };
    named.push(("X-Timeout"@, decimal(deadline as nat)))
}

/// What the caller keeps track of.
pub struct Ledger {
    /// The identifiers submitted and not cleared since.
    pub pending: Set<i32>,
    /// The completions filed, by identifier.
    pub completed: Map<i32, CallRecv>,
    /// The identifier issued last; zero before the first.
    pub last_id: i32,
    /// Trace and parent identifiers, where tracing is configured.
    pub trace: Option<(Seq<char>, Seq<char>)>,
    /// The client's name, where one is configured.
    pub client: Option<Seq<char>>,
}

impl Ledger {
    /// Only pending identifiers have completions, each filed under its own
    /// identifier, and every pending identifier was issued here.
    pub open spec fn inv(self) -> bool {
        &&& self.pending.finite()
        &&& self.completed.dom().finite()
        &&& self.last_id >= 0
        &&& forall|i: i32| #[trigger] self.pending.contains(i) ==> 0 < i <= self.last_id
        &&& forall|i: i32| #[trigger]
            self.completed.contains_key(i) ==> self.pending.contains(i) && self.completed[i].id == i
    }

    /// The ledger after the next identifier was issued and marked pending.
    pub open spec fn issue(self) -> Ledger {
        Ledger {
            pending: self.pending.insert((self.last_id + 1) as i32),
            last_id: (self.last_id + 1) as i32,
            ..self
        }
    }

    /// The ledger after a completion came in: it is filed if its identifier
    /// is pending and has no completion yet, and dropped otherwise.
    pub open spec fn file(self, r: CallRecv) -> Ledger {
        if self.pending.contains(r.id) && !self.completed.contains_key(r.id) {
            Ledger { completed: self.completed.insert(r.id, r), ..self }
        } else {
            self
        }
    }

    /// The ledger after the completions `rs` came in, in that order.
    pub open spec fn file_all(self, rs: Seq<CallRecv>) -> Ledger
        decreases rs.len(),
    {
        if rs.len() == 0 {
            self
        } else {
            self.file_all(rs.drop_last()).file(rs.last())
        }
    }

    /// The completion of `id`, if one is filed.
    pub open spec fn lookup(self, id: i32) -> Option<CallRecv> {
        if self.completed.contains_key(id) {
            Some(self.completed[id])
        } else {
            None
        }
    }

    /// The ledger with nothing pending and nothing filed.
    pub open spec fn clear(self) -> Ledger {
        Ledger { pending: Set::empty(), completed: Map::empty(), ..self }
    }

    /// The first of `ids`, from position `from` on, that is not pending.
    pub open spec fn first_unknown_from(self, ids: Seq<i32>, from: int) -> Option<i32>
        decreases ids.len() - from,
    {
        if from < 0 || from >= ids.len() {
            None
        } else if !self.pending.contains(ids[from]) {
            Some(ids[from])
        } else {
            self.first_unknown_from(ids, from + 1)
        }
    }

    /// The first of `ids`, in the order given, that is not pending.
    pub open spec fn first_unknown(self, ids: Seq<i32>) -> Option<i32> {
        self.first_unknown_from(ids, 0)
    }

    /// The first of `ids`, from position `from` on, that has a completion.
    pub open spec fn first_ready_from(self, ids: Seq<i32>, from: int) -> Option<i32>
        decreases ids.len() - from,
    {
        if from < 0 || from >= ids.len() {
            None
        } else if self.completed.contains_key(ids[from]) {
            Some(ids[from])
        } else {
            self.first_ready_from(ids, from + 1)
        }
    }

    /// The first of `ids`, in the order given, that has a completion.
    pub open spec fn first_ready(self, ids: Seq<i32>) -> Option<i32> {
        self.first_ready_from(ids, 0)
    }

    /// What a wait for `ids` learns from the arrival of `r`: its identifier
    /// if that is one of `ids`.
    pub open spec fn hit(ids: Seq<i32>, r: CallRecv) -> Option<i32> {
        if ids.contains(r.id) {
            Some(r.id)
        } else {
            None
        }
    }
}

/// Filing a completion keeps the ledger well formed, touches nothing but the
/// completions, and never replaces a completion that is already filed.
pub proof fn lemma_file_keeps(l: Ledger, r: CallRecv, id: i32)
    requires
        l.inv(),
    ensures
        l.file(r).inv(),
        l.file(r).pending == l.pending,
        l.file(r).last_id == l.last_id,
        l.lookup(id) is Some ==> l.file(r).lookup(id) == l.lookup(id),
        l.lookup(id) is None && r.id != id ==> l.file(r).lookup(id) is None,
{
}

/// Filing a run of completions keeps the ledger well formed, touches nothing
/// but the completions, and never replaces a completion that is already
/// filed.
pub proof fn lemma_file_all_keeps(l: Ledger, rs: Seq<CallRecv>, id: i32)
    requires
        l.inv(),
    ensures
        l.file_all(rs).inv(),
        l.file_all(rs).pending == l.pending,
        l.file_all(rs).last_id == l.last_id,
        l.lookup(id) is Some ==> l.file_all(rs).lookup(id) == l.lookup(id),
    decreases rs.len(),
{
    if rs.len() > 0 {
        lemma_file_all_keeps(l, rs.drop_last(), id);
        lemma_file_keeps(l.file_all(rs.drop_last()), rs.last(), id);
    }
}

/// Identifiers are unique and strictly increasing: the identifier issued
/// next is one more than the last, is larger than every pending one, and
/// neither filing completions nor clearing brings the count back.
pub proof fn lemma_ids_strictly_increase(l: Ledger, rs: Seq<CallRecv>)
    requires
        l.inv(),
        l.last_id < i32::MAX,
    ensures
        l.issue().inv(),
        l.issue().last_id == l.last_id + 1,
        !l.pending.contains(l.issue().last_id),
        forall|i: i32| l.pending.contains(i) ==> i < l.issue().last_id,
        l.issue().file_all(rs).last_id == l.issue().last_id,
        l.issue().clear().last_id == l.issue().last_id,
        l.issue().last_id < i32::MAX ==> l.issue().issue().last_id > l.issue().last_id,
{
    lemma_file_all_keeps(l.issue(), rs, 0);
}

/// A pending identifier without a completion gets the first completion that
/// arrives for it, and keeps it: whatever arrives later, for this identifier
/// or another, the completion looked up stays the same and the pending set
/// is untouched.
pub proof fn lemma_one_completion_per_id(l: Ledger, r: CallRecv, later: Seq<CallRecv>)
    requires
        l.inv(),
        l.pending.contains(r.id),
        l.lookup(r.id) is None,
    ensures
        l.file(r).lookup(r.id) == Some(r),
        l.file(r).file_all(later).lookup(r.id) == Some(r),
        l.file(r).file_all(later).pending == l.pending,
{
    lemma_file_keeps(l, r, r.id);
    lemma_file_all_keeps(l.file(r), later, r.id);
}

/// Polling is idempotent once a completion is there: a later poll, whatever
/// has arrived in between, finds the same completion, and the pending set
/// and the identifier count are as before.
pub proof fn lemma_poll_ready_idempotent(
    l: Ledger,
    id: i32,
    first: Seq<CallRecv>,
    later: Seq<CallRecv>,
)
    requires
        l.inv(),
        l.file_all(first).lookup(id) is Some,
    ensures
        l.file_all(first).file_all(later).lookup(id) == l.file_all(first).lookup(id),
        l.file_all(first).file_all(later).pending == l.file_all(first).pending,
        l.file_all(first).file_all(later).last_id == l.file_all(first).last_id,
        l.file_all(first).file_all(Seq::empty()) == l.file_all(first),
{
    lemma_file_all_keeps(l, first, id);
    lemma_file_all_keeps(l.file_all(first), later, id);
}

/// Of two identifiers of which only `a` has a completion, a wait for both
/// is satisfied by `a`, in whichever order they are given.
pub proof fn lemma_ready_one_wins_in_any_order(l: Ledger, a: i32, b: i32)
    requires
        l.completed.contains_key(a),
        !l.completed.contains_key(b),
    ensures
        l.first_ready(seq![a, b]) == Some(a),
        l.first_ready(seq![b, a]) == Some(a),
{
    reveal_with_fuel(Ledger::first_ready_from, 3);
}

/// Where several of the identifiers given have a completion, the one given
/// first wins; where none has, the wait is not satisfied.
pub proof fn lemma_first_ready_is_first(l: Ledger, ids: Seq<i32>, from: int)
    requires
        0 <= from <= ids.len(),
    ensures
        match l.first_ready_from(ids, from) {
            Some(id) => exists|k: int|
                from <= k < ids.len() && ids[k] == id && l.completed.contains_key(id) && forall|
                    j: int,
                |
                    from <= j < k ==> !l.completed.contains_key(#[trigger] ids[j]),
            None => forall|j: int|
                from <= j < ids.len() ==> !l.completed.contains_key(#[trigger] ids[j]),
        },
    decreases ids.len() - from,
{
    if from < ids.len() {
        if l.completed.contains_key(ids[from]) {
            assert(from <= from < ids.len() && ids[from] == ids[from]);
        } else {
            lemma_first_ready_is_first(l, ids, from + 1);
            match l.first_ready_from(ids, from + 1) {
                Some(id) => {
                    let k = choose|k: int|
                        from + 1 <= k < ids.len() && ids[k] == id && l.completed.contains_key(id)
                            && forall|j: int|
                            from + 1 <= j < k ==> !l.completed.contains_key(#[trigger] ids[j]);
                    assert(from <= k < ids.len() && ids[k] == id);
                },
                None => {},
            }
        }
    }
}

/// The identifier reported as unknown is the first of those given that is
/// not pending; none is reported exactly when all are pending.
pub proof fn lemma_first_unknown_is_first(l: Ledger, ids: Seq<i32>, from: int)
    requires
        0 <= from <= ids.len(),
    ensures
        match l.first_unknown_from(ids, from) {
            Some(id) => exists|k: int|
                from <= k < ids.len() && ids[k] == id && !l.pending.contains(id) && forall|j: int|
                    from <= j < k ==> l.pending.contains(#[trigger] ids[j]),
            None => forall|j: int| from <= j < ids.len() ==> l.pending.contains(#[trigger] ids[j]),
        },
    decreases ids.len() - from,
{
    if from < ids.len() {
        if !l.pending.contains(ids[from]) {
            assert(from <= from < ids.len() && ids[from] == ids[from]);
        } else {
            lemma_first_unknown_is_first(l, ids, from + 1);
            match l.first_unknown_from(ids, from + 1) {
                Some(id) => {
                    let k = choose|k: int|
                        from + 1 <= k < ids.len() && ids[k] == id && !l.pending.contains(id)
                            && forall|j: int|
                            from + 1 <= j < k ==> l.pending.contains(#[trigger] ids[j]);
                    assert(from <= k < ids.len() && ids[k] == id);
                },
                None => {},
            }
        }
    }
}

/// After clearing, no identifier is known: none is pending, none has a
/// completion, a wait that names any identifier reports the first one named
/// as unknown, and a completion that still arrives is dropped.
pub proof fn lemma_clear_forgets(l: Ledger, id: i32, ids: Seq<i32>, r: CallRecv)
    requires
        l.inv(),
    ensures
        l.clear().inv(),
        !l.clear().pending.contains(id),
        l.clear().lookup(id) is None,
        ids.len() > 0 ==> l.clear().first_unknown(ids) == Some(ids[0]),
        l.clear().file(r) == l.clear(),
        l.clear().last_id == l.last_id,
{
}


/// `Arc::clone` gives another handle to the same value.
#[verifier::external_body]
fn share(a: &Arc<CallRecv>) -> (b: Arc<CallRecv>)
    ensures
        *b == **a,
{
    Arc::clone(a)
}

/// The host-facing caller.
pub struct InnerCaller {
    inq: Sender<CallSend>,
    outq: Receiver<CallRecv>,
    pending_reqs: HashSet<i32>,
    completed_reqs: HashMap<i32, Arc<CallRecv>>,
    id: i32,
    trace: Option<(String, String)>,
    client: Option<String>,
}

impl View for InnerCaller {
    type V = Ledger;

    closed spec fn view(&self) -> Ledger {
        Ledger {
            pending: self.pending_reqs@,
            completed: Map::new(
                |i: i32| self.completed_reqs@.contains_key(i),
                |i: i32| *self.completed_reqs@[i],
            ),
            last_id: self.id,
            trace: match self.trace {
                Some((t, p)) => Some((t@, p@)),
                None => None,
            },
            client: match self.client {
                Some(c) => Some(c@),
                None => None,
            },
        }
    }
}

fn contains_id(ids: &Vec<i32>, id: i32) -> (found: bool)
    ensures
        found == ids@.contains(id),
{
    let mut k: usize = 0;
    while k < ids.len()
        invariant
            k <= ids.len(),
            forall|j: int| 0 <= j < k ==> ids@[j] != id,
        decreases ids.len() - k,
    {
        if ids[k] == id {
            return true;
        }
        k += 1;
    }
    false
}

impl InnerCaller {
    /// Well-formedness: the invariant of the ledger.
    pub open spec fn inv(&self) -> bool {
        self@.inv()
    }

    /// A caller on the sending end of the channel of submissions and the
    /// receiving end of the channel of completions, with no identifier
    /// issued yet.
    pub fn new(inq: Sender<CallSend>, outq: Receiver<CallRecv>) -> (c: Self)
        ensures
            c.inv(),
            c@ == (Ledger {
                pending: Set::empty(),
                completed: Map::empty(),
                last_id: 0,
                trace: None,
                client: None,
            }),
    {
        let c = InnerCaller {
            inq,
            outq,
            pending_reqs: HashSet::new(),
            completed_reqs: HashMap::new(),
            id: 0,
            trace: None,
            client: None,
        };
        assert(c@.completed =~= Map::<i32, CallRecv>::empty());
        c
    }

    /// Configures the trace that later submissions are stamped with.
    pub fn set_trace(&mut self, trace_id: &str, parent_id: &str)
        ensures
            final(self)@ == (Ledger { trace: Some((trace_id@, parent_id@)), ..old(self)@ }),
    {
        self.trace = Some((String::from_str(trace_id), String::from_str(parent_id)));
    }

    /// Configures the client name that later submissions are stamped with.
    pub fn set_client(&mut self, client: &str)
        ensures
            final(self)@ == (Ledger { client: Some(client@), ..old(self)@ }),
    {
        self.client = Some(String::from_str(client));
    }

    /// Issues the next identifier: one more than the last.
    pub fn get_id(&mut self) -> (id: i32)
        requires
            old(self)@.last_id < i32::MAX,
        ensures
            id == old(self)@.last_id + 1,
            final(self)@ == (Ledger { last_id: id, ..old(self)@ }),
    {
        self.id += 1;
        self.id
    }

    /// The last identifier issued; zero before the first.
    pub fn last_id(&self) -> (id: i32)
        ensures
            id == self@.last_id,
    {
        self.id
    }

    /// Stamps the headers of a submission.
    fn stamp(&self, headers: Vec<(String, String)>, deadline: u64) -> (out: Vec<(String, String)>)
        ensures
            out.deep_view() == stamped(headers.deep_view(), self@.trace, self@.client, deadline as int),
    {
        let mut headers = headers;
        let ghost h0 = headers.deep_view();
        if let Some((trace_id, parent_id)) = &self.trace {
            let mut value = String::from_str("00-");
            value.append(trace_id.as_str());
            value.append("-");
            value.append(parent_id.as_str());
            value.append("-00");
            headers.push((String::from_str("Traceparent"), value));
            assert(headers.deep_view() =~= h0.push(
                ("Traceparent"@, traceparent(trace_id@, parent_id@)),
            ));
        }
        let ghost h1 = headers.deep_view();
        if let Some(name) = &self.client {
            headers.push((String::from_str("X-Client"), name.clone()));
            assert(headers.deep_view() =~= h1.push(("X-Client"@, name@)));
        }
        let ghost h2 = headers.deep_view();
        headers.push((String::from_str("X-Timeout"), decimal_string(deadline)));
        assert(headers.deep_view() =~= h2.push(("X-Timeout"@, decimal(deadline as nat))));
        headers
    }

    /// Builds the submission for a request: assigns the next identifier,
    /// stamps the headers with the deadline `deadline` and with what is
    /// configured, and marks the identifier pending.
    pub fn prepare(
        &mut self,
        method: String,
        host: String,
        port: u16,
        path_segms: Vec<String>,
        use_ssl: bool,
        params: Vec<(String, String)>,
        headers: Vec<(String, String)>,
        body: Vec<u8>,
        timeout_ms: u64,
        deadline: u64,
    ) -> (submission: CallSend)
        requires
            old(self)@.last_id < i32::MAX,
        ensures
            old(self).inv() ==> final(self).inv(),
            final(self)@ == old(self)@.issue(),
            submission@ == (CallSendView {
                id: (old(self)@.last_id + 1) as i32,
                timeout_ms,
                method: method@,
                host: host@,
                port,
                path_segms: path_segms.deep_view(),
                use_ssl,
                params: params.deep_view(),
                headers: stamped(
                    headers.deep_view(),
                    old(self)@.trace,
                    old(self)@.client,
                    deadline as int,
                ),
                body: body@,
            }),
    {
        let headers = self.stamp(headers, deadline);
        let id = self.get_id();
        self.pending_reqs.insert(id);
        assert(self@.completed =~= old(self)@.completed);
        CallSend { id, timeout_ms, method, host, port, path_segms, use_ssl, params, headers, body }
    }

    /// Submits a request at the time given by `now_secs` and `now_nanos`
    /// since the epoch, and returns its identifier at once. The identifier
    /// is issued and pending whether or not the event loop could be reached;
    /// if it could not, the error says so.
    pub fn call(
        &mut self,
        method: String,
        host: String,
        port: u16,
        path_segms: Vec<String>,
        use_ssl: bool,
        params: Vec<(String, String)>,
        headers: Vec<(String, String)>,
        body: Vec<u8>,
        timeout_ms: u64,
        now_secs: u64,
        now_nanos: u32,
    ) -> (r: Result<i32, CallerError>)
        requires
            old(self)@.last_id < i32::MAX,
            deadline_secs(now_secs, now_nanos, timeout_ms) <= u64::MAX,
        ensures
            old(self).inv() ==> final(self).inv(),
            final(self)@ == old(self)@.issue(),
            r == Ok::<i32, CallerError>((old(self)@.last_id + 1) as i32) || r == Err::<
                i32,
                CallerError,
            >(CallerError::TransportUnavailable),
    {
        let d = deadline(now_secs, now_nanos, timeout_ms);
        let submission = self.prepare(
            method,
            host,
            port,
            path_segms,
            use_ssl,
            params,
            headers,
            body,
            timeout_ms,
            d,
        );
        let id = submission.id;
        match self.inq.send(submission) {
            Ok(_) => Ok(id),
            Err(_) => Err(CallerError::TransportUnavailable),
        }
    }

    /// Forgets every pending identifier and every filed completion.
    pub fn clear(&mut self)
        ensures
            old(self).inv() ==> final(self).inv(),
            final(self)@ == old(self)@.clear(),
    {
        self.pending_reqs.clear();
        self.completed_reqs.clear();
        assert(self@.completed =~= Map::<i32, CallRecv>::empty());
    }

    /// Files one completion.
    pub fn add_call_recv(&mut self, r: CallRecv)
        ensures
            old(self).inv() ==> final(self).inv(),
            final(self)@ == old(self)@.file(r),
    {
        let id = r.id;
        if self.pending_reqs.contains(&id) && !self.completed_reqs.contains_key(&id) {
            self.completed_reqs.insert(id, Arc::new(r));
            assert(self@.completed =~= old(self)@.file(r).completed);
        }
    }

    /// Files the completions in `arrived`, in order.
    pub fn file_arrived(&mut self, arrived: Vec<CallRecv>)
        ensures
            old(self).inv() ==> final(self).inv(),
            final(self)@ == old(self)@.file_all(arrived@),
    {
        let mut arrived = arrived;
        let ghost all = arrived@;
        let ghost mut done: Seq<CallRecv> = Seq::empty();
        while arrived.len() > 0
            invariant
                old(self).inv() ==> self.inv(),
                self@ == old(self)@.file_all(done),
                done + arrived@ == all,
            decreases arrived.len(),
        {
            let ghost before = arrived@;
            let r = arrived.remove(0);
            proof {
                let next = done.push(r);
                assert(next.drop_last() =~= done);
                assert(next.last() == r);
                assert(next + arrived@ =~= done + before);
                done = next;
            }
            self.add_call_recv(r);
        }
        assert(done =~= all);
    }

    /// Files every completion that is waiting on the channel, without
    /// blocking.
    pub fn tick(&mut self)
        ensures
            old(self).inv() ==> final(self).inv(),
            exists|arrived: Seq<CallRecv>| final(self)@ == #[trigger] old(self)@.file_all(arrived),
    {
        let arrived = drain_ready(&self.outq);
        let ghost seen = arrived@;
        self.file_arrived(arrived);
        assert(self@ == old(self)@.file_all(seen));
    }

    /// The completion filed for `id`, if there is one.
    pub fn completed(&self, id: i32) -> (r: Option<Arc<CallRecv>>)
        ensures
            match r {
                Some(c) => self@.lookup(id) == Some(*c),
                None => self@.lookup(id) is None,
            },
    {
        match self.completed_reqs.get(&id) {
            Some(c) => Some(share(c)),
            None => None,
        }
    }

    /// Files what has arrived, then returns the completion of `id` if it is
    /// there, and nothing if it is not there yet.
    pub fn poll_ready(&mut self, id: i32) -> (r: Option<Arc<CallRecv>>)
        ensures
            old(self).inv() ==> final(self).inv(),
            exists|arrived: Seq<CallRecv>| final(self)@ == #[trigger] old(self)@.file_all(arrived),
            match r {
                Some(c) => final(self)@.lookup(id) == Some(*c),
                None => final(self)@.lookup(id) is None,
            },
    {
        self.tick();
        self.completed(id)
    }

    /// The first of `ids` that is not pending, if there is one.
    pub fn find_unknown(&self, ids: &Vec<i32>) -> (r: Option<i32>)
        ensures
            r == self@.first_unknown(ids@),
    {
        let mut k: usize = 0;
        while k < ids.len()
            invariant
                k <= ids.len(),
                self@.first_unknown(ids@) == self@.first_unknown_from(ids@, k as int),
            decreases ids.len() - k,
        {
            if !self.pending_reqs.contains(&ids[k]) {
                return Some(ids[k]);
            }
            k += 1;
        }
        None
    }

    /// The first of `ids` that has a completion, if there is one.
    pub fn find_ready(&self, ids: &Vec<i32>) -> (r: Option<i32>)
        ensures
            r == self@.first_ready(ids@),
    {
        let mut k: usize = 0;
        while k < ids.len()
            invariant
                k <= ids.len(),
                self@.first_ready(ids@) == self@.first_ready_from(ids@, k as int),
            decreases ids.len() - k,
        {
            if self.completed_reqs.contains_key(&ids[k]) {
                return Some(ids[k]);
            }
            k += 1;
        }
        None
    }

    /// Begins a wait for any of `ids`. If one of them is not pending, the
    /// first such is reported and nothing else happens. Otherwise what has
    /// arrived is filed, and the first of `ids`, in the order given, that has
    /// a completion is returned; `None` says that the caller has to wait.
    pub fn block_on_ids(&mut self, ids: &Vec<i32>) -> (r: Result<Option<i32>, CallerError>)
        ensures
            old(self).inv() ==> final(self).inv(),
            match old(self)@.first_unknown(ids@) {
                Some(bad) => final(self)@ == old(self)@ && r == Err::<Option<i32>, CallerError>(
                    CallerError::UnknownId(bad),
                ),
                None => (exists|arrived: Seq<CallRecv>|
                    final(self)@ == #[trigger] old(self)@.file_all(arrived)) && r == Ok::<
                    Option<i32>,
                    CallerError,
                >(final(self)@.first_ready(ids@)),
            },
    {
        if let Some(bad) = self.find_unknown(ids) {
            return Err(CallerError::UnknownId(bad));
        }
        self.tick();
        Ok(self.find_ready(ids))
    }

    /// Files the completion `r` that arrived during a wait for `ids`, and
    /// returns its identifier if it is one of them.
    pub fn on_arrival(&mut self, r: CallRecv, ids: &Vec<i32>) -> (hit: Option<i32>)
        ensures
            old(self).inv() ==> final(self).inv(),
            final(self)@ == old(self)@.file(r),
            hit == Ledger::hit(ids@, r),
    {
        let id = r.id;
        self.add_call_recv(r);
        if contains_id(ids, id) {
            Some(id)
        } else {
            None
        }
    }

    /// Continues a wait for any of `ids`: blocks until one completion
    /// arrives, files it, and returns its identifier if it is one of `ids`;
    /// `None` says that the wait goes on. If the channel is closed, nothing
    /// changes and the error says so.
    pub fn wait_next(&mut self, ids: &Vec<i32>) -> (r: Result<Option<i32>, CallerError>)
        ensures
            old(self).inv() ==> final(self).inv(),
            match r {
                Ok(hit) => exists|c: CallRecv|
                    final(self)@ == #[trigger] old(self)@.file(c) && hit == Ledger::hit(ids@, c),
                Err(e) => e == CallerError::ChannelClosed && final(self)@ == old(self)@,
            },
    {
        match self.outq.recv() {
            Ok(c) => {
                let hit = self.on_arrival(c, ids);
                assert(self@ == old(self)@.file(c) && hit == Ledger::hit(ids@, c));
                Ok(hit)
            },
            Err(_) => Err(CallerError::ChannelClosed),
        }
    }
}

} // verus!
