//! The tables of the event loop: the calls in flight under their
//! identifiers, and the index from the transport's call references to those
//! identifiers. One worker owns them; nothing here is shared.

use crate::call_loop::{
    action_create, after_recv, after_send, construction_failed, failure, fresh, get_call_send,
    CallRecv, CallRecvView, CallSend, PendingRequest, PendingView, RecvOutcome, SendOutcome, State,
    Step, StepView,
};
use std::collections::HashMap;
use std::sync::mpsc::Receiver;
use vstd::prelude::*;

verus! {

broadcast use vstd::std_specs::hash::group_hash_axioms;

/// The tables as mathematical maps.
pub struct LoopView {
    /// The calls in flight, by identifier.
    pub calls: Map<i32, PendingView>,
    /// The identifier that each known call reference leads to.
    pub refs: Map<u64, i32>,
}

/// `refs` without the entry that leads from `call_ref` to `id`, if it has one.
pub open spec fn unlink(refs: Map<u64, i32>, call_ref: u64, id: i32) -> Map<u64, i32> {
    if refs.contains_key(call_ref) && refs[call_ref] == id {
        refs.remove(call_ref)
    } else {
        refs
    }
}

impl LoopView {
    /// Every indexed reference leads to a call in flight that is known to
    /// the transport by that very reference, and every call is filed under
    /// its own identifier.
    pub open spec fn inv(self) -> bool {
        &&& self.calls.dom().finite()
        &&& self.refs.dom().finite()
        &&& forall|i: i32| #[trigger] self.calls.contains_key(i) ==> self.calls[i].id == i
        &&& forall|c: u64| #[trigger]
            self.refs.contains_key(c) ==> self.calls.contains_key(self.refs[c])
                && self.calls[self.refs[c]].call_ref == c
    }

    /// The identifier that a readiness event for `call_ref` belongs to; none
    /// for a stale reference.
    pub open spec fn resolve(self, call_ref: u64) -> Option<i32> {
        if self.refs.contains_key(call_ref) {
            Some(self.refs[call_ref])
        } else {
            None
        }
    }

    /// The tables after a call was placed for `id` under `call_ref`: the call
    /// starts afresh in the send phase, and the reference leads to it alone.
    pub open spec fn register(self, id: i32, call_ref: u64) -> LoopView {
        let refs = if self.calls.contains_key(id) {
            unlink(self.refs, self.calls[id].call_ref, id)
        } else {
            self.refs
        };
        LoopView { calls: self.calls.insert(id, fresh(id, call_ref)), refs: refs.insert(call_ref, id) }
    }

    /// The tables after call `id`, which was in flight, took `step`.
    pub open spec fn settle(self, id: i32, step: StepView) -> LoopView {
        match step {
            StepView::Waiting(p) => LoopView { calls: self.calls.insert(id, p), refs: self.refs },
            StepView::Resend(p) => LoopView {
                calls: self.calls.insert(id, p),
                refs: unlink(self.refs, self.calls[id].call_ref, id).insert(p.call_ref, id),
            },
            StepView::Finished(_) => LoopView {
                calls: self.calls.remove(id),
                refs: unlink(self.refs, self.calls[id].call_ref, id),
            },
        }
    }

    /// The completion that `step` asks to deliver, if any.
    pub open spec fn delivered(step: StepView) -> Option<CallRecvView> {
        match step {
            StepView::Finished(c) => Some(c),
            _ => None,
        }
    }

    /// The tables after the transport's report on sending for `id`. A report
    /// for an identifier that is not in flight changes nothing.
    pub open spec fn on_send(self, id: i32, o: SendOutcome) -> LoopView {
        if self.calls.contains_key(id) {
            self.settle(id, after_send(self.calls[id], o))
        } else {
            self
        }
    }

    /// The completion that a report on sending for `id` produces.
    pub open spec fn sent(self, id: i32, o: SendOutcome) -> Option<CallRecvView> {
        if self.calls.contains_key(id) {
            Self::delivered(after_send(self.calls[id], o))
        } else {
            None
        }
    }

    /// The tables after the transport's report on receiving for `id`.
    pub open spec fn on_recv(self, id: i32, received: Seq<u8>, o: RecvOutcome) -> LoopView {
        if self.calls.contains_key(id) {
            self.settle(id, after_recv(self.calls[id], received, o))
        } else {
            self
        }
    }

    /// The completion that a report on receiving for `id` produces.
    pub open spec fn received(self, id: i32, received: Seq<u8>, o: RecvOutcome) -> Option<
        CallRecvView,
    > {
        if self.calls.contains_key(id) {
            Self::delivered(after_recv(self.calls[id], received, o))
        } else {
            None
        }
    }
}

/// A step of a call keeps the call's identifier, in its state and in the
/// completion it may produce.
pub proof fn lemma_step_keeps_id(p: PendingView, received: Seq<u8>, s: SendOutcome, r: RecvOutcome)
    ensures
        match after_send(p, s) {
            StepView::Waiting(q) => q.id == p.id,
            StepView::Resend(q) => q.id == p.id,
            StepView::Finished(c) => c.id == p.id,
        },
        match after_recv(p, received, r) {
            StepView::Waiting(q) => q.id == p.id,
            StepView::Resend(q) => q.id == p.id,
            StepView::Finished(c) => c.id == p.id,
        },
{
}

/// Placing a call keeps the tables well formed.
pub proof fn lemma_register_keeps_inv(v: LoopView, id: i32, call_ref: u64)
    requires
        v.inv(),
    ensures
        v.register(id, call_ref).inv(),
        v.register(id, call_ref).resolve(call_ref) == Some(id),
{
    let w = v.register(id, call_ref);
    assert forall|c: u64| #[trigger] w.refs.contains_key(c) implies w.calls.contains_key(w.refs[c])
        && w.calls[w.refs[c]].call_ref == c by {
        if c != call_ref {
            assert(v.refs.contains_key(c));
        }
    }
}

/// A step of a call in flight keeps the tables well formed, whatever the
/// step, as long as it keeps the call's identifier.
pub proof fn lemma_settle_keeps_inv(v: LoopView, id: i32, step: StepView)
    requires
        v.inv(),
        v.calls.contains_key(id),
        match step {
            StepView::Waiting(q) => q.id == id && q.call_ref == v.calls[id].call_ref,
            StepView::Resend(q) => q.id == id,
            StepView::Finished(_) => true,
        },
    ensures
        v.settle(id, step).inv(),
{
    let w = v.settle(id, step);
    assert forall|c: u64| #[trigger] w.refs.contains_key(c) implies w.calls.contains_key(w.refs[c])
        && w.calls[w.refs[c]].call_ref == c by {
        match step {
            StepView::Waiting(q) => {
                assert(v.refs.contains_key(c));
            },
            StepView::Resend(q) => {
                if c != q.call_ref {
                    assert(v.refs.contains_key(c));
                }
            },
            StepView::Finished(_) => {
                assert(v.refs.contains_key(c));
            },
        }
    }
}

/// No two call references lead to the same identifier: when the transport
/// issues a new reference for a call, the old one is replaced.
pub proof fn lemma_refs_never_duplicated(v: LoopView, c1: u64, c2: u64)
    requires
        v.inv(),
        v.refs.contains_key(c1),
        v.refs.contains_key(c2),
        v.refs[c1] == v.refs[c2],
    ensures
        c1 == c2,
{
}

/// Reports of the transport keep the tables well formed.
pub proof fn lemma_reports_keep_inv(
    v: LoopView,
    id: i32,
    received: Seq<u8>,
    s: SendOutcome,
    r: RecvOutcome,
)
    requires
        v.inv(),
    ensures
        v.on_send(id, s).inv(),
        v.on_recv(id, received, r).inv(),
{
    if v.calls.contains_key(id) {
        lemma_step_keeps_id(v.calls[id], received, s, r);
        lemma_settle_keeps_inv(v, id, after_send(v.calls[id], s));
        lemma_settle_keeps_inv(v, id, after_recv(v.calls[id], received, r));
    }
}

/// A call completes at most once: the report that produces a completion
/// produces it for that call and takes the call out of the tables, and with
/// it the reference that led to it; a report that produces none leaves the
/// set of calls in flight as it was.
pub proof fn lemma_one_completion_per_call(
    v: LoopView,
    id: i32,
    received: Seq<u8>,
    s: SendOutcome,
    r: RecvOutcome,
)
    requires
        v.inv(),
    ensures
        match v.sent(id, s) {
            Some(c) => c.id == id && v.calls.contains_key(id) && !v.on_send(id, s).calls.contains_key(
                id,
            ) && forall|k: u64| v.on_send(id, s).resolve(k) != Some(id),
            None => v.on_send(id, s).calls.dom() == v.calls.dom(),
        },
        match v.received(id, received, r) {
            Some(c) => c.id == id && v.calls.contains_key(id) && !v.on_recv(
                id,
                received,
                r,
            ).calls.contains_key(id) && forall|k: u64|
                v.on_recv(id, received, r).resolve(k) != Some(id),
            None => v.on_recv(id, received, r).calls.dom() == v.calls.dom(),
        },
{
    lemma_reports_keep_inv(v, id, received, s, r);
    if v.calls.contains_key(id) {
        lemma_step_keeps_id(v.calls[id], received, s, r);
        assert(v.on_send(id, s).calls.dom() =~= if v.sent(id, s) is Some {
            v.calls.dom().remove(id)
        } else {
            v.calls.dom()
        });
        assert(v.on_recv(id, received, r).calls.dom() =~= if v.received(id, received, r) is Some {
            v.calls.dom().remove(id)
        } else {
            v.calls.dom()
        });
    }
}

/// The tables of the event loop.
pub struct CallLoop {
    pending_calls: HashMap<i32, PendingRequest>,
    cref_to_id: HashMap<u64, i32>,
}

impl View for CallLoop {
    type V = LoopView;

    closed spec fn view(&self) -> LoopView {
        LoopView {
            calls: Map::new(
                |i: i32| self.pending_calls@.contains_key(i),
                |i: i32| self.pending_calls@[i]@,
            ),
            refs: self.cref_to_id@,
        }
    }
}

impl CallLoop {
    /// Well-formedness: the invariant of the tables.
    pub open spec fn inv(&self) -> bool {
        self@.inv()
    }

    /// Empty tables.
    pub fn new() -> (l: Self)
        ensures
            l.inv(),
            l@.calls == Map::<i32, PendingView>::empty(),
            l@.refs == Map::<u64, i32>::empty(),
    {
        let l = CallLoop { pending_calls: HashMap::new(), cref_to_id: HashMap::new() };
        assert(l@.calls =~= Map::<i32, PendingView>::empty());
        assert(l@.calls.dom() =~= Set::<i32>::empty());
        l
    }

    /// Whether no call is in flight. The loop waits for a submission only
    /// then; otherwise it only looks for one.
    pub fn is_idle(&self) -> (idle: bool)
        ensures
            idle == (self@.calls.dom() == Set::<i32>::empty()),
    {
        let idle = self.pending_calls.is_empty();
        proof {
            assert(self@.calls.dom() =~= self.pending_calls@.dom());
            if idle {
                self.pending_calls@.dom().lemma_len0_is_empty();
            } else {
                assert(self.pending_calls@.dom().len() != 0);
                if self.pending_calls@.dom() == Set::<i32>::empty() {
                    assert(Set::<i32>::empty().len() == 0);
                }
            }
        }
        idle
    }

    /// Acquires the next submission: waits for one only when no call is in
    /// flight, and otherwise only looks for one, so that the calls in flight
    /// are not starved. `None` ends the loop, which happens only when no call
    /// is in flight and every sender is gone; `Some(None)` says to go on
    /// without a submission, which happens only while calls are in flight.
    pub fn next_submission(&self, inq: &Receiver<CallSend>) -> (r: Option<Option<CallSend>>)
        ensures
            r is None ==> self@.calls.dom() == Set::<i32>::empty(),
            r == Some(None::<CallSend>) ==> self@.calls.dom() != Set::<i32>::empty(),
    {
        get_call_send(inq, self.is_idle())
    }

    /// The phase of call `id`, if it is in flight.
    pub fn phase(&self, id: i32) -> (r: Option<State>)
        ensures
            r == if self@.calls.contains_key(id) {
                Some(self@.calls[id].state)
            } else {
                None
            },
    {
        match self.pending_calls.get(&id) {
            Some(p) => Some(p.state),
            None => None,
        }
    }

    /// The identifier that a readiness event for `call_ref` belongs to. A
    /// stale reference gives none, and the tables stay as they are.
    pub fn resolve(&self, call_ref: u64) -> (r: Option<i32>)
        ensures
            r == self@.resolve(call_ref),
            self.inv() ==> (r matches Some(id) ==> self@.calls.contains_key(id)),
    {
        match self.cref_to_id.get(&call_ref) {
            Some(i) => Some(*i),
            None => None,
        }
    }

    fn unlink(&mut self, call_ref: u64, id: i32)
        ensures
            final(self).pending_calls == old(self).pending_calls,
            final(self).cref_to_id@ == unlink(old(self).cref_to_id@, call_ref, id),
    {
        let linked = match self.cref_to_id.get(&call_ref) {
            Some(i) => *i == id,
            None => false,
        };
        if linked {
            self.cref_to_id.remove(&call_ref);
        }
    }

    /// Records the call that was placed for `id` under `call_ref`.
    pub fn register(&mut self, id: i32, call_ref: u64)
        ensures
            old(self).inv() ==> final(self).inv(),
            final(self)@ == old(self)@.register(id, call_ref),
    {
        let old_ref = match self.pending_calls.get(&id) {
            Some(p) => Some(p.call_ref),
            None => None,
        };
        if let Some(c) = old_ref {
            self.unlink(c, id);
        }
        self.cref_to_id.insert(call_ref, id);
        self.pending_calls.insert(id, PendingRequest::new(id, call_ref));
        proof {
            assert(self@.calls =~= old(self)@.register(id, call_ref).calls);
            if old(self).inv() {
                lemma_register_keeps_inv(old(self)@, id, call_ref);
            }
        }
    }

    /// Takes in what placing the call for `id` gave: a reference, under which
    /// the call is recorded, or the transport's error, which becomes the
    /// completion to deliver at once; the call is then never in flight.
    pub fn accept(&mut self, id: i32, placed: Result<u64, mio_httpc::Error>) -> (r: Option<CallRecv>)
        ensures
            old(self).inv() ==> final(self).inv(),
            match placed {
                Ok(call_ref) => final(self)@ == old(self)@.register(id, call_ref) && r is None,
                Err(e) => final(self)@ == old(self)@ && (r matches Some(c) && c@ == failure(
                    id,
                    action_create(),
                    e,
                )),
            },
    {
        match placed {
            Ok(call_ref) => {
                self.register(id, call_ref);
                None
            },
            Err(e) => Some(construction_failed(id, e)),
        }
    }

    fn settle(&mut self, id: i32, old_ref: u64, Ghost(before): Ghost<PendingView>, step: Step) -> (r:
        Option<CallRecv>)
        requires
            !old(self).pending_calls@.contains_key(id),
            old_ref == before.call_ref,
        ensures
            final(self)@ == (LoopView {
                calls: old(self)@.calls.insert(id, before),
                refs: old(self)@.refs,
            }).settle(id, step@),
            match r {
                Some(c) => LoopView::delivered(step@) == Some(c@),
                None => LoopView::delivered(step@) is None,
            },
    {
        let ghost whole = LoopView {
            calls: old(self)@.calls.insert(id, before),
            refs: old(self)@.refs,
        };
        match step {
            Step::Waiting(p) => {
                self.pending_calls.insert(id, p);
                assert(self@.calls =~= whole.settle(id, step@).calls);
                None
            },
            Step::Resend(p) => {
                let call_ref = p.call_ref;
                self.unlink(old_ref, id);
                self.cref_to_id.insert(call_ref, id);
                self.pending_calls.insert(id, p);
                assert(self@.calls =~= whole.settle(id, step@).calls);
                None
            },
            Step::Finished(c) => {
                self.unlink(old_ref, id);
                assert(self@.calls =~= whole.settle(id, step@).calls);
                Some(c)
            },
        }
    }

    /// Takes in the transport's report on sending for call `id` and returns
    /// the completion to deliver, if the report finished the call.
    pub fn on_send(&mut self, id: i32, outcome: SendOutcome) -> (r: Option<CallRecv>)
        ensures
            old(self).inv() ==> final(self).inv(),
            final(self)@ == old(self)@.on_send(id, outcome),
            match r {
                Some(c) => old(self)@.sent(id, outcome) == Some(c@),
                None => old(self)@.sent(id, outcome) is None,
            },
    {
        proof {
            if old(self).inv() {
                lemma_reports_keep_inv(old(self)@, id, Seq::empty(), outcome, RecvOutcome::Wait);
            }
        }
        match self.pending_calls.remove(&id) {
            None => {
                assert(self@.calls =~= old(self)@.calls);
                None
            },
            Some(p) => {
                let old_ref = p.call_ref;
                let ghost before = p@;
                let step = p.on_send(outcome);
                let r = self.settle(id, old_ref, Ghost(before), step);
                proof {
                    let mid = LoopView {
                        calls: Map::new(
                            |i: i32| old(self).pending_calls@.remove(id).contains_key(i),
                            |i: i32| old(self).pending_calls@.remove(id)[i]@,
                        ).insert(id, before),
                        refs: old(self)@.refs,
                    };
                    assert(mid.calls =~= old(self)@.calls);
                }
                r
            },
        }
    }

    /// Takes in the transport's report on receiving for call `id`, with the
    /// bytes that arrived during that step, and returns the completion to
    /// deliver, if the report finished the call.
    pub fn on_recv(&mut self, id: i32, received: Vec<u8>, outcome: RecvOutcome) -> (r: Option<
        CallRecv,
    >)
        ensures
            old(self).inv() ==> final(self).inv(),
            final(self)@ == old(self)@.on_recv(id, received@, outcome),
            match r {
                Some(c) => old(self)@.received(id, received@, outcome) == Some(c@),
                None => old(self)@.received(id, received@, outcome) is None,
            },
    {
        proof {
            if old(self).inv() {
                lemma_reports_keep_inv(old(self)@, id, received@, SendOutcome::Wait, outcome);
            }
        }
        match self.pending_calls.remove(&id) {
            None => {
                assert(self@.calls =~= old(self)@.calls);
                None
            },
            Some(p) => {
                let old_ref = p.call_ref;
                let ghost before = p@;
                let step = p.on_recv(received, outcome);
                let r = self.settle(id, old_ref, Ghost(before), step);
                proof {
                    let mid = LoopView {
                        calls: Map::new(
                            |i: i32| old(self).pending_calls@.remove(id).contains_key(i),
                            |i: i32| old(self).pending_calls@.remove(id)[i]@,
                        ).insert(id, before),
                        refs: old(self)@.refs,
                    };
                    assert(mid.calls =~= old(self)@.calls);
                }
                r
            },
        }
    }
}

} // verus!
