//! Properties of whole runs, stated over the `step` relation of the
//! broadcaster and proved for every trace of events.
use vstd::prelude::*;
use crate::types::{Addr, IntendedTransaction};
use crate::chain::ChainProfile;
use crate::error::BroadcastError;
use crate::nonce::reconciled;
use crate::shaper::shaped;
use crate::broadcaster::{RunContext, RunState, Phase, Event, Action, step, accepts, state_wf};

verus! {

/// The state reached after feeding `events` one by one.
pub open spec fn run<R>(c: RunContext, s: RunState<R>, events: Seq<Event<R>>) -> RunState<R>
    decreases events.len(),
{
    if events.len() == 0 {
        s
    } else {
        run(c, step(c, s, events[0]).0, events.drop_first())
    }
}

/// Every event answers the action the run was waiting on.
pub open spec fn trace_ok<R>(c: RunContext, s: RunState<R>, events: Seq<Event<R>>) -> bool
    decreases events.len(),
{
    events.len() == 0 || (accepts(s, events[0]) && trace_ok(c, step(c, s, events[0]).0, events.drop_first()))
}

/// The plan positions of the entries submitted while feeding `events`, in order.
pub open spec fn submitted<R>(c: RunContext, s: RunState<R>, events: Seq<Event<R>>) -> Seq<nat>
    decreases events.len(),
{
    if events.len() == 0 {
        Seq::empty()
    } else {
        let (s1, a) = step(c, s, events[0]);
        let here: Seq<nat> = if a is Submit { seq![s.index] } else { Seq::empty() };
        here + submitted(c, s1, events.drop_first())
    }
}

/// The plan position of the next entry that will be submitted.
pub open spec fn next_to_submit<R>(s: RunState<R>) -> nat {
    if s.phase is AwaitingReceipt { s.index + 1 } else { s.index }
}

/// One step keeps a run's state well formed, receipts and cursor included,
/// whatever action it asks for.
pub proof fn lemma_step_wf<R>(c: RunContext, s: RunState<R>, e: Event<R>)
    requires
        state_wf(c, s),
        accepts(s, e),
    ensures
        state_wf(c, step(c, s, e).0),
        step(c, s, e).0.receipts.len() == step(c, s, e).0.index,
{
    if s.phase is Ready && s.index < c.plan.len() {
        let sender = c.plan[s.index as int].from;
        if c.identities.contains(sender) {
            let i = choose|i: int| 0 <= i < c.identities.len() && c.identities[i] == sender;
            lemma_first_position_exists(c.identities, sender, i);
        }
    }
}

proof fn lemma_first_position_exists(s: Seq<Addr>, a: Addr, i: int)
    requires
        0 <= i < s.len(),
        s[i] == a,
    ensures
        0 <= crate::broadcaster::first_position(s, a) < s.len(),
        s[crate::broadcaster::first_position(s, a)] == a,
    decreases i,
{
    if exists|k: int| 0 <= k < i && s[k] == a {
        let k = choose|k: int| 0 <= k < i && s[k] == a;
        lemma_first_position_exists(s, a, k);
    } else {
        assert(0 <= i < s.len() && s[i] == a && forall|k: int| 0 <= k < i ==> s[k] != a);
    }
}

/// Crash consistency: in every state that a run passes through (each one a
/// point where the sequence may be written), the number of receipts equals
/// the cursor and the cursor lies within the plan.
pub proof fn lemma_receipts_match_cursor<R>(c: RunContext, s: RunState<R>, events: Seq<Event<R>>)
    requires
        state_wf(c, s),
        trace_ok(c, s, events),
    ensures
        state_wf(c, run(c, s, events)),
        run(c, s, events).receipts.len() == run(c, s, events).index,
        run(c, s, events).index <= c.plan.len(),
    decreases events.len(),
{
    if events.len() > 0 {
        lemma_step_wf(c, s, events[0]);
        lemma_receipts_match_cursor(c, step(c, s, events[0]).0, events.drop_first());
    }
}

/// Resumability, for a run from any well-formed state: the entries it
/// submits are consecutive plan positions starting at the next one due,
/// each submitted once; receipts already recorded are kept as they are;
/// and unless the run aborted, it has submitted exactly the entries up to
/// the next one now due.
pub proof fn lemma_submissions_consecutive<R>(c: RunContext, s: RunState<R>, events: Seq<Event<R>>)
    requires
        state_wf(c, s),
        trace_ok(c, s, events),
    ensures
        forall|j: int| 0 <= j < submitted(c, s, events).len()
            ==> submitted(c, s, events)[j] == next_to_submit(s) + j,
        !(run(c, s, events).phase is Aborted)
            ==> next_to_submit(run(c, s, events)) == next_to_submit(s) + submitted(c, s, events).len(),
        run(c, s, events).index >= s.index,
        run(c, s, events).receipts.subrange(0, s.index as int) == s.receipts,
    decreases events.len(),
{
    if events.len() > 0 {
        let e = events[0];
        let (s1, a) = step(c, s, e);
        let rest = events.drop_first();
        lemma_step_wf(c, s, e);
        lemma_submissions_consecutive(c, s1, rest);
        let sub1 = submitted(c, s1, rest);
        let sub = submitted(c, s, events);
        if s1.phase is Aborted {
            if rest.len() > 0 {
                assert(trace_ok(c, s1, rest));
                assert(!accepts(s1, rest[0]));
            }
        } else {
            if a is Submit {
                assert(next_to_submit(s1) == next_to_submit(s) + 1);
            } else {
                assert(next_to_submit(s1) == next_to_submit(s));
            }
        }
        assert(s1.receipts.subrange(0, s.index as int) =~= s.receipts);
        lemma_receipts_match_cursor(c, s1, rest);
        let fr = run(c, s1, rest).receipts;
        assert(fr.subrange(0, s.index as int) =~= fr.subrange(0, s1.index as int).subrange(0, s.index as int));
    }
}

/// Resumability: a run started at cursor `k` (as `Broadcaster::new` starts
/// one on a sequence whose cursor is `k`) that finishes has submitted
/// exactly the entries `k, k + 1, ..., len - 1`, each once and in order,
/// none before `k`, and has kept the first `k` receipts as they were.
pub proof fn lemma_resume_submits_rest<R>(c: RunContext, s: RunState<R>, events: Seq<Event<R>>)
    requires
        state_wf(c, s),
        s.phase is Ready,
        trace_ok(c, s, events),
        run(c, s, events).phase is Finished,
    ensures
        submitted(c, s, events).len() == c.plan.len() - s.index,
        forall|j: int| 0 <= j < submitted(c, s, events).len() ==> submitted(c, s, events)[j] == s.index + j,
        run(c, s, events).index == c.plan.len(),
        run(c, s, events).receipts.subrange(0, s.index as int) == s.receipts,
{
    lemma_submissions_consecutive(c, s, events);
    lemma_receipts_match_cursor(c, s, events);
}

/// The events of a run in which nothing goes wrong: for each remaining
/// entry, go on, the chain's nonce `observed[i]`, and the receipt
/// `receipts[i]`; then go on once more to finish.
pub open spec fn good_events<R>(observed: Seq<u64>, receipts: Seq<R>) -> Seq<Event<R>>
    decreases observed.len(),
{
    if observed.len() == 0 {
        seq![Event::Proceed]
    } else {
        seq![Event::Proceed, Event::NonceObserved(observed[0]), Event::Receipt(receipts[0])]
            + good_events(observed.drop_first(), receipts.drop_first())
    }
}

/// The chain nonces `observed` reconcile with the entries from `index` on,
/// starting from the offsets `offsets`.
pub open spec fn nonces_reconcile(c: RunContext, offsets: Map<Addr, u64>, index: nat, observed: Seq<u64>) -> bool
    decreases observed.len(),
{
    if observed.len() == 0 {
        true
    } else {
        let entry = c.plan[index as int];
        let (next, stamped) = reconciled(offsets, entry.from, entry.nonce, observed[0], c.resume_mode);
        stamped is Some && nonces_reconcile(c, next, index + 1, observed.drop_first())
    }
}

/// Resumability, completion: a run at cursor `k` whose remaining senders all
/// have identities, whose nonces reconcile and whose submissions all yield
/// receipts finishes, having submitted exactly the entries `k, ..., len - 1`
/// once each and in order, and having appended their receipts, in order,
/// to the `k` it started with.
#[verifier::rlimit(40)]
pub proof fn lemma_good_run_finishes<R>(c: RunContext, s: RunState<R>, observed: Seq<u64>, receipts: Seq<R>)
    requires
        state_wf(c, s),
        s.phase is Ready,
        c.identities.len() > 0,
        observed.len() == c.plan.len() - s.index,
        receipts.len() == observed.len(),
        forall|i: int| s.index <= i < c.plan.len() ==> c.identities.contains(#[trigger] c.plan[i].from),
        nonces_reconcile(c, s.offsets, s.index, observed),
    ensures
        trace_ok(c, s, good_events(observed, receipts)),
        run(c, s, good_events(observed, receipts)).phase is Finished,
        run(c, s, good_events(observed, receipts)).index == c.plan.len(),
        run(c, s, good_events(observed, receipts)).receipts == s.receipts + receipts,
        submitted(c, s, good_events(observed, receipts))
            == Seq::new((c.plan.len() - s.index) as nat, |j: int| (s.index + j) as nat),
    decreases observed.len(),
{
    let es = good_events(observed, receipts);
    if observed.len() == 0 {
        let s1 = step(c, s, Event::Proceed).0;
        assert(es.drop_first() =~= Seq::<Event<R>>::empty());
        assert(run(c, s1, es.drop_first()) == s1);
        assert(trace_ok(c, s1, es.drop_first()));
        assert(accepts(s, es[0]));
        assert(trace_ok(c, s, es));
        assert(s1.phase is Finished);
        assert(run(c, s, es) == s1);
        assert(submitted(c, s1, es.drop_first()) =~= Seq::<nat>::empty());
        assert(submitted(c, s, es) =~= Seq::new((c.plan.len() - s.index) as nat, |j: int| (s.index + j) as nat));
        assert(s.receipts + receipts =~= s.receipts);
    } else {
        let o = observed[0];
        let r = receipts[0];
        let rest = good_events(observed.drop_first(), receipts.drop_first());
        let e1 = es.drop_first();
        let e2 = e1.drop_first();
        assert(es[0] == Event::<R>::Proceed);
        assert(e1[0] == Event::<R>::NonceObserved(o));
        assert(e2[0] == Event::<R>::Receipt(r));
        assert(e2.drop_first() =~= rest);
        let s3 = lemma_good_round(c, s, o, r);
        let s1 = step(c, s, es[0]).0;
        let s2 = step(c, s1, e1[0]).0;
        lemma_good_run_finishes(c, s3, observed.drop_first(), receipts.drop_first());
        assert(step(c, s2, e2[0]).0 == s3);
        assert(trace_ok(c, s3, e2.drop_first()));
        assert(trace_ok(c, s2, e2));
        assert(trace_ok(c, s1, e1));
        assert(trace_ok(c, s, es));
        assert(run(c, s2, e2) == run(c, s3, rest));
        assert(run(c, s1, e1) == run(c, s3, rest));
        assert(run(c, s, es) == run(c, s3, rest));
        assert(s3.receipts + receipts.drop_first() =~= s.receipts + receipts);
        let sub3 = submitted(c, s3, rest);
        assert(submitted(c, s2, e2) == sub3);
        assert(submitted(c, s1, e1) =~= seq![s.index] + sub3);
        assert(submitted(c, s, es) =~= seq![s.index] + sub3);
        assert(seq![s.index] + sub3 =~= Seq::new((c.plan.len() - s.index) as nat, |j: int| (s.index + j) as nat));
    }
}

/// One entry of a good run: going on, the nonce and the receipt take the
/// run from `s` to the next entry, submitting only at the second step.
proof fn lemma_good_round<R>(c: RunContext, s: RunState<R>, o: u64, r: R) -> (s3: RunState<R>)
    requires
        state_wf(c, s),
        s.phase is Ready,
        c.identities.len() > 0,
        s.index < c.plan.len(),
        c.identities.contains(c.plan[s.index as int].from),
        reconciled(s.offsets, c.plan[s.index as int].from, c.plan[s.index as int].nonce, o, c.resume_mode).1 is Some,
    ensures
        ({
            let (s1, a1) = step(c, s, Event::Proceed);
            let (s2, a2) = step(c, s1, Event::NonceObserved(o));
            let (t3, a3) = step(c, s2, Event::Receipt(r));
            &&& accepts(s, Event::Proceed) && accepts(s1, Event::NonceObserved(o)) && accepts(s2, Event::Receipt(r))
            &&& !(a1 is Submit) && a2 is Submit && !(a3 is Submit)
            &&& t3 == s3
        }),
        state_wf(c, s3),
        s3.phase is Ready,
        s3.index == s.index + 1,
        s3.receipts == s.receipts.push(r),
        s3.offsets == reconciled(s.offsets, c.plan[s.index as int].from, c.plan[s.index as int].nonce, o, c.resume_mode).0,
{
    lemma_step_wf(c, s, Event::Proceed);
    let s1 = step(c, s, Event::Proceed).0;
    lemma_step_wf(c, s1, Event::NonceObserved(o));
    let s2 = step(c, s1, Event::NonceObserved(o)).0;
    lemma_step_wf(c, s2, Event::Receipt(r));
    step(c, s2, Event::Receipt(r)).0
}

/// Offset idempotence: in resume mode, the first reconciliation of a sender
/// whose chain nonce is `d` ahead of its planned nonce records `d` and
/// stamps the chain nonce; any later reconciliation of that sender keeps
/// `d` as it is and stamps `planned + d`, or reports a conflict when the
/// chain nonce is not `planned + d`.
pub proof fn lemma_offset_fixed_once(
    t: Map<Addr, u64>,
    sender: Addr,
    first_planned: u64,
    first_observed: u64,
    planned: u64,
    observed: u64,
)
    requires
        !t.contains_key(sender),
        first_observed >= first_planned,
    ensures
        ({
            let (t1, n1) = reconciled(t, sender, first_planned, first_observed, true);
            let d = first_observed - first_planned;
            let (t2, n2) = reconciled(t1, sender, planned, observed, true);
            &&& n1 == Some(first_observed)
            &&& t1.contains_key(sender) && t1[sender] == d
            &&& t2 == t1
            &&& (n2 is Some <==> planned + d == observed)
            &&& (n2 is Some ==> n2->Some_0 == planned + d)
        }),
{
}

/// An offset once recorded is never changed: reconciling any sender keeps
/// every offset already in the table.
pub proof fn lemma_offsets_kept(
    t: Map<Addr, u64>,
    sender: Addr,
    planned: u64,
    observed: u64,
    resume_mode: bool,
    other: Addr,
)
    requires
        t.contains_key(other),
    ensures
        reconciled(t, sender, planned, observed, resume_mode).0.contains_key(other),
        reconciled(t, sender, planned, observed, resume_mode).0[other] == t[other],
{
}

/// Strict rejection: without resume mode, a chain nonce that differs from
/// the planned one aborts the run with a nonce conflict; that entry is not
/// submitted, and no later event is taken, so no later entry is either.
pub proof fn lemma_strict_mismatch_aborts<R>(c: RunContext, s: RunState<R>, events: Seq<Event<R>>)
    requires
        state_wf(c, s),
        !c.resume_mode,
        s.phase is AwaitingNonce,
        trace_ok(c, s, events),
        events.len() > 0,
        events[0] is NonceObserved,
        events[0]->NonceObserved_0 != c.plan[s.index as int].nonce,
    ensures
        step(c, s, events[0]).1 is PersistAndAbort,
        step(c, s, events[0]).1->PersistAndAbort_0 is NonceConflict,
        run(c, s, events).phase is Aborted,
        submitted(c, s, events).len() == 0,
        run(c, s, events).index == s.index,
{
    let s1 = step(c, s, events[0]).0;
    let rest = events.drop_first();
    if rest.len() > 0 {
        assert(trace_ok(c, s1, rest));
        assert(!accepts(s1, rest[0]));
    }
    assert(run(c, s1, rest) == s1);
    assert(submitted(c, s1, rest).len() == 0);
    assert(submitted(c, s, events) =~= Seq::<nat>::empty() + submitted(c, s1, rest));
}

/// Sender binding: an entry whose sender has no signing identity aborts the
/// run; the cursor stays on that entry and no receipt is added for it.
pub proof fn lemma_unknown_sender_aborts<R>(c: RunContext, s: RunState<R>)
    requires
        state_wf(c, s),
        s.phase is Ready,
        s.index < c.plan.len(),
        c.identities.len() > 0,
        !c.identities.contains(c.plan[s.index as int].from),
    ensures
        step(c, s, Event::Proceed).1
            == Action::PersistAndAbort(BroadcastError::UnresolvedSender { sender: c.plan[s.index as int].from }),
        step(c, s, Event::Proceed).0.phase is Aborted,
        step(c, s, Event::Proceed).0.index == s.index,
        step(c, s, Event::Proceed).0.receipts == s.receipts,
        forall|e: Event<R>| !accepts(step(c, s, Event::Proceed).0, e),
{
}

/// An empty identity pool is a configuration error: the run aborts with
/// `NoSigner` at its first step, before any entry is touched.
pub proof fn lemma_empty_pool_aborts<R>(c: RunContext, s: RunState<R>)
    requires
        state_wf(c, s),
        s.phase is Ready,
        c.identities.len() == 0,
    ensures
        step(c, s, Event::Proceed).1 == Action::PersistAndAbort(BroadcastError::NoSigner),
        step(c, s, Event::Proceed).0.index == s.index,
        step(c, s, Event::Proceed).0.receipts == s.receipts,
        forall|e: Event<R>| !accepts(step(c, s, Event::Proceed).0, e),
{
}

/// Shape selection: on a legacy chain every shaped transaction is in the
/// legacy format, otherwise in the dynamic-fee format; either way it
/// carries the profile's chain identifier and the given nonce.
pub proof fn lemma_shape_follows_profile(entry: IntendedTransaction, nonce: u64, profile: ChainProfile)
    ensures
        profile.legacy ==> shaped(entry, nonce, profile) is Legacy
            && shaped(entry, nonce, profile)->Legacy_0.chain_id == Some(profile.chain_id)
            && shaped(entry, nonce, profile)->Legacy_0.nonce == Some(nonce),
        !profile.legacy ==> shaped(entry, nonce, profile) is Eip1559
            && shaped(entry, nonce, profile)->Eip1559_0.chain_id == Some(profile.chain_id)
            && shaped(entry, nonce, profile)->Eip1559_0.nonce == Some(nonce),
{
}

/// Every submission a run asks for carries the entry at the cursor, shaped
/// for the run's chain profile.
pub proof fn lemma_submission_is_shaped_entry<R>(c: RunContext, s: RunState<R>, e: Event<R>)
    requires
        state_wf(c, s),
        accepts(s, e),
        step(c, s, e).1 is Submit,
    ensures
        s.phase is AwaitingNonce,
        e is NonceObserved,
        ({
            let entry = c.plan[s.index as int];
            let stamped = reconciled(s.offsets, entry.from, entry.nonce, e->NonceObserved_0, c.resume_mode).1;
            &&& stamped is Some
            &&& step(c, s, e).1->Submit_tx == shaped(entry, stamped->Some_0, c.profile)
        }),
{
}

} // verus!
