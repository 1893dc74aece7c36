//! Settlement of async calls that cross the boundary.
//!
//! A call is registered under a handle and returns at once. Later it is
//! settled exactly once: either its work completes and the completion
//! callback fires with the outcome, or native code frees the handle first and
//! the outcome is dropped. Whichever comes first wins; whatever comes after
//! is a no-op.

use vstd::prelude::*;
use crate::protocol::handle_map::{HandleError, HandleMap};

verus! {

/// The status that a call reports to native code. The vocabulary is closed:
/// whatever fails in Dart arrives as one of these.
#[derive(Debug, Clone, Copy, PartialEq, Eq, Structural)]
pub enum CallStatus {
    Success,
    Error,
    UnexpectedError,
}

impl CallStatus {
    /// The code of the status on the wire.
    pub open spec fn spec_code(self) -> i8 {
        match self {
            CallStatus::Success => 0i8,
            CallStatus::Error => 1i8,
            CallStatus::UnexpectedError => 2i8,
        }
    }

    /// The code of the status on the wire.
    pub fn code(self) -> (c: i8)
        ensures
            c == self.spec_code(),
    {
        match self {
            CallStatus::Success => 0,
            CallStatus::Error => 1,
            CallStatus::UnexpectedError => 2,
        }
    }
}

/// How the work of an async call ended.
pub enum Outcome<T> {
    /// The method returned; the value is lowered. A method without a return
    /// value yields `()`.
    Success(T),
    /// The method raised the error that its interface declares; the error
    /// is lowered into a buffer.
    Error(Vec<u8>),
    /// The method failed in any other way; the text is the diagnostic.
    Unexpected(String),
}

/// The result struct that a completion callback receives.
pub struct ForeignFutureResult<T> {
    pub return_value: Option<T>,
    pub call_status: CallStatus,
    pub error_buf: Option<Vec<u8>>,
    pub diagnostic: Option<String>,
}

/// The result struct that carries `outcome`: exactly one of value, error and
/// diagnostic, with the status that belongs to it.
pub open spec fn result_of<T>(outcome: Outcome<T>) -> ForeignFutureResult<T> {
    match outcome {
        Outcome::Success(v) => ForeignFutureResult {
            return_value: Some(v),
            call_status: CallStatus::Success,
            error_buf: None,
            diagnostic: None,
        },
        Outcome::Error(e) => ForeignFutureResult {
            return_value: None,
            call_status: CallStatus::Error,
            error_buf: Some(e),
            diagnostic: None,
        },
        Outcome::Unexpected(d) => ForeignFutureResult {
            return_value: None,
            call_status: CallStatus::UnexpectedError,
            error_buf: None,
            diagnostic: Some(d),
        },
    }
}

/// Builds the result struct of an outcome.
pub fn make_result<T>(outcome: Outcome<T>) -> (r: ForeignFutureResult<T>)
    ensures
        r == result_of(outcome),
{
    match outcome {
        Outcome::Success(v) => ForeignFutureResult {
            return_value: Some(v),
            call_status: CallStatus::Success,
            error_buf: None,
            diagnostic: None,
        },
        Outcome::Error(e) => ForeignFutureResult {
            return_value: None,
            call_status: CallStatus::Error,
            error_buf: Some(e),
            diagnostic: None,
        },
        Outcome::Unexpected(d) => ForeignFutureResult {
            return_value: None,
            call_status: CallStatus::UnexpectedError,
            error_buf: None,
            diagnostic: Some(d),
        },
    }
}

/// What can happen to an in-flight call.
pub enum Event<T> {
    /// The work of the call ended.
    Complete(Outcome<T>),
    /// Native code freed the handle of the call.
    Free,
}

/// One step of a call: the flag after the event, and the result that the
/// completion callback fires with, if it fires. The first event settles the
/// call; an event on a settled call changes nothing and fires nothing.
pub open spec fn step<T>(settled: bool, event: Event<T>) -> (bool, Option<ForeignFutureResult<T>>) {
    match event {
        Event::Complete(outcome) => if settled {
            (true, None)
        } else {
            (true, Some(result_of(outcome)))
        },
        Event::Free => (true, None),
    }
}

/// The results that the completion callback fires with while the events of
/// `trace` happen, in order, to a call whose flag is `settled`.
pub open spec fn deliveries<T>(settled: bool, trace: Seq<Event<T>>) -> Seq<ForeignFutureResult<T>>
    decreases trace.len(),
{
    if trace.len() == 0 {
        Seq::empty()
    } else {
        let (next, fired) = step(settled, trace.first());
        match fired {
            Some(r) => seq![r] + deliveries(next, trace.drop_first()),
            None => deliveries(next, trace.drop_first()),
        }
    }
}

/// The state of one in-flight call.
#[derive(Debug)]
pub struct CallState {
    settled: bool,
}

impl View for CallState {
    type V = bool;

    closed spec fn view(&self) -> bool {
        self.settled
    }
}

impl CallState {
    /// The state of a call that was just registered.
    pub fn new() -> (state: Self)
        ensures
            !state@,
    {
        CallState { settled: false }
    }

    /// True when the call is settled.
    pub fn is_settled(&self) -> (b: bool)
        ensures
            b == self@,
    {
        self.settled
    }

    /// The work of the call ended with `outcome`: checks and sets the flag
    /// in one step, and returns the result for the completion callback when
    /// this is what settles the call.
    pub fn complete<T>(&mut self, outcome: Outcome<T>) -> (fired: Option<ForeignFutureResult<T>>)
        ensures
            (final(self)@, fired) == step(old(self)@, Event::Complete(outcome)),
    {
        if self.settled {
            None
        } else {
            self.settled = true;
            Some(make_result(outcome))
        }
    }

    /// Native code freed the handle: the call is settled without a
    /// completion. Freeing a settled call changes nothing.
    pub fn free(&mut self)
        ensures
            final(self)@,
            (final(self)@, None::<ForeignFutureResult<()>>) == step(old(self)@, Event::<()>::Free),
    {
        self.settled = true;
    }
}

/// On a settled call nothing fires any more.
pub proof fn lemma_settled_is_silent<T>(trace: Seq<Event<T>>)
    ensures
        deliveries(true, trace) == Seq::<ForeignFutureResult<T>>::empty(),
    decreases trace.len(),
{
    if trace.len() > 0 {
        lemma_settled_is_silent(trace.drop_first());
    }
}

/// Under every interleaving of completion and cancellation, the completion
/// callback of a call fires at most once. It fires exactly when the first
/// event is the completion, and then with the outcome of that completion.
pub proof fn lemma_completion_fires_at_most_once<T>(trace: Seq<Event<T>>)
    ensures
        deliveries(false, trace).len() <= 1,
        trace.len() > 0 ==> (deliveries(false, trace) == match trace.first() {
            Event::Complete(outcome) => seq![result_of(outcome)],
            Event::Free => Seq::empty(),
        }),
        trace.len() == 0 ==> deliveries(false, trace).len() == 0,
{
    if trace.len() > 0 {
        lemma_settled_is_silent(trace.drop_first());
        match trace.first() {
            Event::Complete(outcome) => {
                assert(deliveries(false, trace) =~= seq![result_of(outcome)]);
            },
            Event::Free => {},
        }
    }
}

/// Every event settles the call, and exactly the first one does: each call
/// is settled once in total, by completion or by cancellation.
pub proof fn lemma_settled_exactly_once<T>(settled: bool, first: Event<T>, second: Event<T>)
    ensures
        step(settled, first).0,
        step(step(settled, first).0, second) == (true, None::<ForeignFutureResult<T>>),
{
}

/// Freeing a call before its work ends suppresses the completion; freeing it
/// after the completion has fired is a no-op.
pub proof fn lemma_free_and_completion<T>(outcome: Outcome<T>)
    ensures
        deliveries(false, seq![Event::Free, Event::Complete(outcome)]) == Seq::<
            ForeignFutureResult<T>,
        >::empty(),
        deliveries(false, seq![Event::Complete(outcome), Event::Free]) == seq![result_of(outcome)],
        step(true, Event::<T>::Free) == (true, None::<ForeignFutureResult<T>>),
{
    lemma_completion_fires_at_most_once(seq![Event::Free, Event::Complete(outcome)]);
    lemma_completion_fires_at_most_once(seq![Event::Complete(outcome), Event::Free]);
}

/// The in-flight calls of one callback-interface instance. A call is in the
/// table from its registration to its settlement.
pub struct ForeignFutureTable {
    calls: HandleMap<CallState>,
}

impl View for ForeignFutureTable {
    type V = Set<u64>;

    /// The handles of the calls that are not settled yet.
    closed spec fn view(&self) -> Set<u64> {
        self.calls@.dom()
    }
}

impl ForeignFutureTable {
    /// The handle that the next registration issues.
    pub closed spec fn next_handle(&self) -> u64 {
        self.calls.next_handle()
    }

    /// Every call in the table is unsettled, under a handle that the counter
    /// issued.
    pub closed spec fn wf(&self) -> bool {
        &&& self.calls.wf()
        &&& forall|h: u64| #[trigger] self.calls@.contains_key(h) ==> !self.calls@[h]@
    }

    /// The table as the laws see it.
    pub open spec fn state(&self) -> TableState {
        TableState { pending: self@, next: self.next_handle() as nat }
    }

    /// The pending handles were issued before the next one.
    pub proof fn lemma_pending_below_next(&self)
        requires
            self.wf(),
        ensures
            forall|h: u64| #[trigger] self@.contains(h) ==> 1 <= h < self.next_handle(),
    {
        assert forall|h: u64| #[trigger] self@.contains(h) implies 1 <= h
            < self.next_handle() by {
            assert(self.calls@.contains_key(h));
        }
    }

    /// The table without calls. Its counter stands at 1, the first handle
    /// that it will issue.
    pub fn new() -> (table: Self)
        ensures
            table.wf(),
            table@ == Set::<u64>::empty(),
            table.next_handle() == 1,
    {
        let table = ForeignFutureTable { calls: HandleMap::new() };
        assert(table@ =~= Set::<u64>::empty());
        table
    }

    /// Registers a new call and returns its handle: fresh, never issued
    /// before, and not 0.
    pub fn start(&mut self) -> (r: Result<u64, HandleError>)
        requires
            old(self).wf(),
        ensures
            final(self).wf(),
            r is Ok <==> old(self).next_handle() < u64::MAX,
            r matches Ok(h) ==> h == old(self).next_handle() && h != 0 && !old(self)@.contains(h)
                && final(self)@ == old(self)@.insert(h) && final(self).next_handle() == h + 1,
            r matches Err(e) ==> e == HandleError::Exhausted && final(self)@ == old(self)@
                && final(self).next_handle() == old(self).next_handle(),
            final(self).state() == old(self).state().after(TableEvent::Start),
    {
        let r = self.calls.insert(CallState::new());
        proof {
            match r {
                Ok(h) => {
                    assert(self@ =~= old(self)@.insert(h));
                    assert forall|k: u64| #[trigger]
                        self.calls@.contains_key(k) implies !self.calls@[k]@ by {
                        if k != h {
                            assert(old(self).calls@.contains_key(k));
                        }
                    }
                },
                Err(_) => {},
            }
        }
        r
    }

    /// The work of the call `handle` ended with `outcome`. Returns the
    /// result for the completion callback when the call was pending, and
    /// nothing when it was settled before. Other calls are not touched.
    pub fn complete<T>(&mut self, handle: u64, outcome: Outcome<T>) -> (fired: Option<
        ForeignFutureResult<T>,
    >)
        requires
            old(self).wf(),
        ensures
            final(self).wf(),
            final(self)@ == old(self)@.remove(handle),
            final(self).next_handle() == old(self).next_handle(),
            fired == if old(self)@.contains(handle) {
                Some(result_of(outcome))
            } else {
                None
            },
            final(self).state() == old(self).state().after(TableEvent::Complete(handle)),
            fired is Some <==> old(self).state().fires(TableEvent::Complete(handle), handle),
    {
        let removed = self.calls.remove(handle);
        proof {
            assert(self@ =~= old(self)@.remove(handle));
            assert forall|k: u64| #[trigger] self.calls@.contains_key(k) implies !self.calls@[k]@ by {
                assert(old(self).calls@.contains_key(k));
            }
        }
        match removed {
            Some(state) => {
                assert(old(self).calls@.contains_key(handle));
                let mut state = state;
                state.complete(outcome)
            },
            None => None,
        }
    }

    /// Native code freed the call `handle`: a pending call is cancelled, so
    /// that its completion will not fire; a settled or unknown handle is
    /// left alone. Other calls are not touched.
    pub fn free(&mut self, handle: u64) -> (cancelled: bool)
        requires
            old(self).wf(),
        ensures
            final(self).wf(),
            final(self)@ == old(self)@.remove(handle),
            final(self).next_handle() == old(self).next_handle(),
            cancelled == old(self)@.contains(handle),
            final(self).state() == old(self).state().after(TableEvent::Free(handle)),
            cancelled == old(self).state().cancels(TableEvent::Free(handle), handle),
    {
        let removed = self.calls.remove(handle);
        proof {
            assert(self@ =~= old(self)@.remove(handle));
            assert forall|k: u64| #[trigger] self.calls@.contains_key(k) implies !self.calls@[k]@ by {
                assert(old(self).calls@.contains_key(k));
            }
        }
        removed.is_some()
    }

    /// True when the call `handle` is pending.
    pub fn is_pending(&self, handle: u64) -> (pending: bool)
        ensures
            pending == self@.contains(handle),
    {
        self.calls.contains(handle)
    }
}

/// What native code and the units of work do to the table of one instance.
pub enum TableEvent {
    /// A new call is registered.
    Start,
    /// The work of the call with that handle ended.
    Complete(u64),
    /// Native code freed the call with that handle.
    Free(u64),
}

/// The table as the laws see it: the pending handles and the counter.
pub struct TableState {
    pub pending: Set<u64>,
    pub next: nat,
}

impl TableState {
    /// Every pending handle was issued by the counter.
    pub open spec fn wf(self) -> bool {
        forall|h: u64| #[trigger] self.pending.contains(h) ==> h < self.next
    }

    /// The table after `event`.
    pub open spec fn after(self, event: TableEvent) -> TableState {
        match event {
            TableEvent::Start => if self.next < u64::MAX {
                TableState { pending: self.pending.insert(self.next as u64), next: self.next + 1 }
            } else {
                self
            },
            TableEvent::Complete(h) => TableState { pending: self.pending.remove(h), ..self },
            TableEvent::Free(h) => TableState { pending: self.pending.remove(h), ..self },
        }
    }

    /// True when `event` fires the completion callback of the call `handle`.
    pub open spec fn fires(self, event: TableEvent, handle: u64) -> bool {
        event == TableEvent::Complete(handle) && self.pending.contains(handle)
    }

    /// True when `event` cancels the call `handle`.
    pub open spec fn cancels(self, event: TableEvent, handle: u64) -> bool {
        event == TableEvent::Free(handle) && self.pending.contains(handle)
    }

    /// How often the completion callback of the call `handle` fires while
    /// the events of `trace` happen in order.
    pub open spec fn fired(self, trace: Seq<TableEvent>, handle: u64) -> nat
        decreases trace.len(),
    {
        if trace.len() == 0 {
            0
        } else {
            (if self.fires(trace.first(), handle) {
                1nat
            } else {
                0nat
            }) + self.after(trace.first()).fired(trace.drop_first(), handle)
        }
    }

    /// How often the call `handle` is cancelled while the events of `trace`
    /// happen in order.
    pub open spec fn cancelled(self, trace: Seq<TableEvent>, handle: u64) -> nat
        decreases trace.len(),
    {
        if trace.len() == 0 {
            0
        } else {
            (if self.cancels(trace.first(), handle) {
                1nat
            } else {
                0nat
            }) + self.after(trace.first()).cancelled(trace.drop_first(), handle)
        }
    }
}

/// Every event keeps the table well-formed.
pub proof fn lemma_after_keeps_wf(state: TableState, event: TableEvent)
    requires
        state.wf(),
    ensures
        state.after(event).wf(),
{
    let after = state.after(event);
    assert forall|h: u64| #[trigger] after.pending.contains(h) implies h < after.next by {
        if state.pending.contains(h) {
        }
    }
}

/// With any number of calls in flight on one instance, and under every
/// interleaving of registrations, completions and frees, each call is
/// settled at most once in total: its completion callback fires at most
/// once, and never after a cancellation; it is cancelled at most once, and
/// never after its completion has fired. A handle that was issued and is no
/// longer pending is never settled again.
pub proof fn lemma_each_call_settles_once(state: TableState, trace: Seq<TableEvent>, handle: u64)
    requires
        state.wf(),
    ensures
        state.fired(trace, handle) + state.cancelled(trace, handle) <= 1,
        !state.pending.contains(handle) && handle < state.next ==> state.fired(trace, handle)
            + state.cancelled(trace, handle) == 0,
    decreases trace.len(),
{
    if trace.len() > 0 {
        let event = trace.first();
        let after = state.after(event);
        lemma_after_keeps_wf(state, event);
        lemma_each_call_settles_once(after, trace.drop_first(), handle);
        if state.fires(event, handle) || state.cancels(event, handle) {
            assert(!after.pending.contains(handle));
            assert(handle < after.next);
        }
        if !state.pending.contains(handle) && handle < state.next {
            assert(!after.pending.contains(handle));
        }
    }
}

/// A pending call whose next event is its completion fires exactly once, and
/// one whose next event is its free fires never.
pub proof fn lemma_first_event_decides(state: TableState, trace: Seq<TableEvent>, handle: u64)
    requires
        state.wf(),
        state.pending.contains(handle),
        trace.len() > 0,
    ensures
        trace.first() == TableEvent::Complete(handle) ==> state.fired(trace, handle) == 1
            && state.cancelled(trace, handle) == 0,
        trace.first() == TableEvent::Free(handle) ==> state.fired(trace, handle) == 0
            && state.cancelled(trace, handle) == 1,
{
    lemma_each_call_settles_once(state, trace, handle);
}

} // verus!
