//! What holds of the error scopes along every sequence of events: the
//! invariant, the stack discipline, the first recorded error, the finality of
//! a resolved future, and the balance of issued and completed operations.

use crate::error_scope::{
    lemma_complete_wf, lemma_pop_wf, lemma_push_wf, lemma_reserve_wf, Completion, GPUError,
    GPUErrorFilter, PromiseState, ScopeModel, Settlement,
};
use vstd::prelude::*;

verus! {

/// One thing that can happen to the error scopes of a device.
pub enum ScopeEvent {
    /// A scope is pushed.
    Push(GPUErrorFilter),
    /// The top scope is popped.
    Pop,
    /// An operation is issued and counted in the current scope.
    Issue,
    /// The backend reports the result of an operation of the named scope.
    Complete(nat, Result<(), GPUError>),
}

impl ScopeModel {
    /// The bookkeeping after `event`.
    pub open spec fn step(self, event: ScopeEvent) -> ScopeModel {
        match event {
            ScopeEvent::Push(filter) => self.push(filter),
            ScopeEvent::Pop => self.pop(),
            ScopeEvent::Issue => self.reserve(),
            ScopeEvent::Complete(id, result) => self.complete(id, result),
        }
    }

    /// The pop future that `event` resolves, by its scope, with the value it
    /// is resolved with.
    pub open spec fn resolution(self, event: ScopeEvent) -> Option<(nat, Option<GPUError>)> {
        match event {
            ScopeEvent::Pop => if self.stack.len() > 0 {
                match self.scopes[self.stack.last()].settlement() {
                    Settlement::Resolved(value) => Some((self.stack.last(), value)),
                    Settlement::Pending => None,
                }
            } else {
                None
            },
            ScopeEvent::Complete(id, result) => match self.completion(id, result) {
                Completion::Resolved(value) => Some((id, value)),
                _ => None,
            },
            _ => None,
        }
    }

    /// Whether `event` issues an operation that is counted in scope `id`.
    pub open spec fn issues_in(self, event: ScopeEvent, id: nat) -> bool {
        event is Issue && self.current() == Some(id)
    }

    /// Whether `event` is a completion notice that is counted in scope `id`.
    pub open spec fn completes_in(self, event: ScopeEvent, id: nat) -> bool {
        event matches ScopeEvent::Complete(scope, _) && scope == id && self.scopes.contains_key(id)
            && self.scopes[id].pending > 0
    }

    /// The operations pending in scope `id`; none where it is not tracked.
    pub open spec fn pending_in(self, id: nat) -> nat {
        if self.scopes.contains_key(id) {
            self.scopes[id].pending
        } else {
            0
        }
    }
}

/// The bookkeeping after all of `events`, in their order, starting from `m`.
pub open spec fn run(m: ScopeModel, events: Seq<ScopeEvent>) -> ScopeModel
    decreases events.len(),
{
    if events.len() == 0 {
        m
    } else {
        run(m, events.drop_last()).step(events.last())
    }
}

/// Every pop future that was resolved along `events`, with its value. Where
/// a future were resolved twice, the later value would stand here.
pub open spec fn resolved(m: ScopeModel, events: Seq<ScopeEvent>) -> Map<nat, Option<GPUError>>
    decreases events.len(),
{
    if events.len() == 0 {
        Map::empty()
    } else {
        let so_far = resolved(m, events.drop_last());
        match run(m, events.drop_last()).resolution(events.last()) {
            Some((id, value)) => so_far.insert(id, value),
            None => so_far,
        }
    }
}

/// How many operations were issued in scope `id` along `events`.
pub open spec fn issued(m: ScopeModel, events: Seq<ScopeEvent>, id: nat) -> nat
    decreases events.len(),
{
    if events.len() == 0 {
        0
    } else {
        let before = issued(m, events.drop_last(), id);
        if run(m, events.drop_last()).issues_in(events.last(), id) {
            before + 1
        } else {
            before
        }
    }
}

/// How many completion notices were counted in scope `id` along `events`.
pub open spec fn completed(m: ScopeModel, events: Seq<ScopeEvent>, id: nat) -> nat
    decreases events.len(),
{
    if events.len() == 0 {
        0
    } else {
        let before = completed(m, events.drop_last(), id);
        if run(m, events.drop_last()).completes_in(events.last(), id) {
            before + 1
        } else {
            before
        }
    }
}

/// Every event keeps the invariant.
pub proof fn lemma_step_wf(m: ScopeModel, event: ScopeEvent)
    requires
        m.wf(),
    ensures
        m.step(event).wf(),
{
    match event {
        ScopeEvent::Push(filter) => lemma_push_wf(m, filter),
        ScopeEvent::Pop => lemma_pop_wf(m),
        ScopeEvent::Issue => lemma_reserve_wf(m),
        ScopeEvent::Complete(id, result) => lemma_complete_wf(m, id, result),
    }
}

/// The invariant holds after every sequence of events.
pub proof fn lemma_run_wf(m: ScopeModel, events: Seq<ScopeEvent>)
    requires
        m.wf(),
    ensures
        run(m, events).wf(),
    decreases events.len(),
{
    if events.len() > 0 {
        lemma_run_wf(m, events.drop_last());
        lemma_step_wf(run(m, events.drop_last()), events.last());
    }
}

/// Popping with no active scope changes nothing.
pub proof fn lemma_pop_empty(m: ScopeModel)
    requires
        m.stack.len() == 0,
    ensures
        m.current() is None,
        m.pop() == m,
{
}

/// A pop removes the scope on top of the stack and no other; that scope is
/// the one pushed last among those still active.
pub proof fn lemma_pop_takes_latest(m: ScopeModel)
    requires
        m.wf(),
        m.stack.len() > 0,
    ensures
        m.current() == Some(m.stack.last()),
        m.pop().stack == m.stack.drop_last(),
        !m.pop().stack.contains(m.stack.last()),
        forall|id: nat| id != m.stack.last() ==> (m.pop().stack.contains(id) <==> m.stack.contains(id)),
        forall|id: nat| #[trigger] m.stack.contains(id) ==> id <= m.stack.last(),
{
    let top = m.stack.last();
    let rest = m.pop().stack;
    if rest.contains(top) {
        let i = choose|i: int| 0 <= i < rest.len() && rest[i] == top;
        assert(m.stack[i] < m.stack[m.stack.len() - 1]);
    }
    assert forall|id: nat| id != top implies (rest.contains(id) <==> m.stack.contains(id)) by {
        if rest.contains(id) {
            let i = choose|i: int| 0 <= i < rest.len() && rest[i] == id;
            assert(m.stack[i] == id);
        }
        if m.stack.contains(id) {
            let i = choose|i: int| 0 <= i < m.stack.len() && m.stack[i] == id;
            assert(rest[i] == id);
        }
    }
    assert forall|id: nat| #[trigger] m.stack.contains(id) implies id <= top by {
        let i = choose|i: int| 0 <= i < m.stack.len() && m.stack[i] == id;
        if i < m.stack.len() - 1 {
            assert(m.stack[i] < m.stack[m.stack.len() - 1]);
        }
    }
}

/// A scope that is pushed becomes the current one, under an identifier that
/// no scope had before, and popping it restores the stack.
pub proof fn lemma_push_then_pop(m: ScopeModel, filter: GPUErrorFilter)
    requires
        m.wf(),
    ensures
        m.push(filter).current() == Some(m.next_id),
        !m.scopes.contains_key(m.next_id),
        m.push(filter).pop().stack == m.stack,
        m.push(filter).pop().scopes == m.scopes,
{
    let pushed = m.push(filter);
    assert(pushed.stack.last() == m.next_id);
    assert(pushed.stack.drop_last() =~= m.stack);
    assert(pushed.scopes.remove(m.next_id) =~= m.scopes);
}

/// What a plain last-in first-out stack holds after the pushes and pops
/// among `events`, and the identifier that the next push takes: a push puts
/// the next identifier on top, a pop takes the top away, if there is one.
pub open spec fn replay(stack: Seq<nat>, next_id: nat, events: Seq<ScopeEvent>) -> (Seq<nat>, nat)
    decreases events.len(),
{
    if events.len() == 0 {
        (stack, next_id)
    } else {
        let before = replay(stack, next_id, events.drop_last());
        match events.last() {
            ScopeEvent::Push(_) => (before.0.push(before.1), before.1 + 1),
            ScopeEvent::Pop => (
                if before.0.len() > 0 {
                    before.0.drop_last()
                } else {
                    before.0
                },
                before.1,
            ),
            _ => before,
        }
    }
}

/// Along every sequence of events the active scopes are those of a plain
/// last-in first-out stack: operations and their completions never touch
/// it.
pub proof fn lemma_stack_is_last_in_first_out(m: ScopeModel, events: Seq<ScopeEvent>)
    ensures
        run(m, events).stack == replay(m.stack, m.next_id, events).0,
        run(m, events).next_id == replay(m.stack, m.next_id, events).1,
    decreases events.len(),
{
    if events.len() > 0 {
        lemma_stack_is_last_in_first_out(m, events.drop_last());
    }
}

/// Only a push or a pop changes the stack.
pub proof fn lemma_stack_moves_by_push_and_pop(m: ScopeModel, event: ScopeEvent)
    ensures
        event is Issue || event is Complete ==> m.step(event).stack == m.stack,
        event is Issue || event is Complete || event is Pop ==> m.step(event).next_id == m.next_id,
{
}

/// The first error that is reported for a scope is the one it records and
/// the one its future is resolved with; a second error changes neither.
pub proof fn lemma_first_error_wins(m: ScopeModel, id: nat, first: GPUError, second: GPUError)
    requires
        m.wf(),
        m.scopes.contains_key(id),
        m.scopes[id].error is None,
        m.scopes[id].pending >= 2,
    ensures
        ({
            let once = m.complete(id, Err(first));
            let twice = once.complete(id, Err(second));
            &&& once.scopes.contains_key(id)
            &&& once.scopes[id].error == Some(first)
            &&& m.scopes[id].promise is Some ==> m.completion(id, Err(first)) == Completion::Resolved(
                Some(first),
            )
            &&& once.completion(id, Err(second)) == Completion::Counted
            &&& twice.scopes.contains_key(id) ==> twice.scopes[id].error == Some(first)
            &&& m.scopes[id].promise is None ==> twice.scopes.contains_key(id)
                && twice.scopes[id].settlement() == Settlement::Resolved(Some(first))
        }),
{
    let scope = m.scopes[id];
    assert(scope.consistent(m.stack.contains(id)));
    if scope.promise is Some {
        assert(scope.promise == Some(PromiseState::Pending));
        assert(m.completion(id, Err(first)) == Completion::Resolved(Some(first)));
    }
}

/// An error that a scope has recorded stays recorded, whatever happens, for
/// as long as the scope is tracked.
pub proof fn lemma_recorded_error_stays(m: ScopeModel, events: Seq<ScopeEvent>, id: nat)
    requires
        m.wf(),
        m.scopes.contains_key(id),
        m.scopes[id].error is Some,
    ensures
        run(m, events).scopes.contains_key(id) ==> run(m, events).scopes[id].error
            == m.scopes[id].error,
        run(m, events).next_id >= m.next_id,
    decreases events.len(),
{
    if events.len() > 0 {
        let before = run(m, events.drop_last());
        lemma_recorded_error_stays(m, events.drop_last(), id);
        lemma_run_wf(m, events.drop_last());
        assert(id < before.next_id);
    }
}

/// The link between the futures resolved so far and the bookkeeping: a
/// scope whose future is resolved is either forgotten or tracked with a
/// fulfilled future, and its identifier is not handed out again.
pub open spec fn settled(state: ScopeModel, futures: Map<nat, Option<GPUError>>) -> bool {
    forall|id: nat| #[trigger]
        futures.contains_key(id) ==> id < state.next_id && (state.scopes.contains_key(id)
            ==> state.scopes[id].promise == Some(PromiseState::Fulfilled))
}

proof fn lemma_resolved_settled(m: ScopeModel, events: Seq<ScopeEvent>)
    requires
        m.wf(),
    ensures
        settled(run(m, events), resolved(m, events)),
        run(m, events).wf(),
    decreases events.len(),
{
    lemma_run_wf(m, events);
    if events.len() > 0 {
        let before = run(m, events.drop_last());
        let futures = resolved(m, events.drop_last());
        let event = events.last();
        lemma_resolved_settled(m, events.drop_last());
        let after = before.step(event);
        assert forall|id: nat| #[trigger] futures.contains_key(id) implies id < after.next_id && (
        after.scopes.contains_key(id) ==> after.scopes[id].promise == Some(
            PromiseState::Fulfilled,
        )) by {
            if before.scopes.contains_key(id) {
                assert(before.scopes[id].consistent(before.stack.contains(id)));
                if before.stack.len() > 0 {
                    assert(before.stack.contains(before.stack.last()));
                }
            }
        }
        match before.resolution(event) {
            Some((id, value)) => {
                assert(before.scopes.contains_key(id));
                assert(before.scopes[id].consistent(before.stack.contains(id)));
                if before.stack.len() > 0 {
                    assert(before.stack.contains(before.stack.last()));
                }
            },
            None => {},
        }
    }
}

/// A pop future is resolved at most once: whatever event follows, every
/// future that was resolved keeps the value it was resolved with.
pub proof fn lemma_resolution_is_final(m: ScopeModel, events: Seq<ScopeEvent>, event: ScopeEvent)
    requires
        m.wf(),
    ensures
        resolved(m, events).submap_of(resolved(m, events.push(event))),
        forall|id: nat| #[trigger]
            resolved(m, events).contains_key(id) ==> match run(m, events).resolution(event) {
                Some(now) => now.0 != id,
                None => true,
            },
{
    let longer = events.push(event);
    assert(longer.drop_last() =~= events);
    assert(longer.last() == event);
    lemma_resolved_settled(m, events);
    let before = run(m, events);
    match before.resolution(event) {
        Some((id, value)) => {
            assert(before.scopes.contains_key(id));
            assert(before.scopes[id].consistent(before.stack.contains(id)));
            if before.stack.len() > 0 {
                assert(before.stack.contains(before.stack.last()));
            }
            assert(!resolved(m, events).contains_key(id));
        },
        None => {},
    }
}

/// The futures resolved along a sequence of events are still resolved, with
/// the same values, after any continuation of it.
pub proof fn lemma_resolved_grows(m: ScopeModel, events: Seq<ScopeEvent>, more: Seq<ScopeEvent>)
    requires
        m.wf(),
    ensures
        resolved(m, events).submap_of(resolved(m, events + more)),
    decreases more.len(),
{
    if more.len() == 0 {
        assert(events + more =~= events);
    } else {
        let shorter = events + more.drop_last();
        lemma_resolved_grows(m, events, more.drop_last());
        assert(shorter.push(more.last()) =~= events + more);
        lemma_resolution_is_final(m, shorter, more.last());
        assert forall|id: nat| #[trigger] resolved(m, events).contains_key(id) implies resolved(
            m,
            events + more,
        ).contains_key(id) && resolved(m, events + more)[id] == resolved(m, events)[id] by {
            assert(resolved(m, shorter).contains_key(id));
        }
    }
}

/// A completion notice for a scope with nothing pending changes nothing, and
/// one that is counted takes exactly one operation off the scope.
pub proof fn lemma_completion_counts_once(m: ScopeModel, id: nat, result: Result<(), GPUError>)
    requires
        m.wf(),
    ensures
        m.pending_in(id) == 0 ==> m.complete(id, result) == m,
        m.pending_in(id) > 0 ==> m.complete(id, result).pending_in(id) + 1 == m.pending_in(id),
        forall|other: nat| other != id ==> m.complete(id, result).pending_in(other) == m.pending_in(other),
{
}

/// The operations pending in a scope are those issued in it less those
/// completed: never fewer than none, so along no sequence of events were
/// more completions counted in a scope than operations were issued in it.
pub proof fn lemma_pending_balance(m: ScopeModel, events: Seq<ScopeEvent>, id: nat)
    requires
        m.wf(),
    ensures
        run(m, events).pending_in(id) + completed(m, events, id) == m.pending_in(id) + issued(
            m,
            events,
            id,
        ),
        completed(m, events, id) <= m.pending_in(id) + issued(m, events, id),
    decreases events.len(),
{
    if events.len() > 0 {
        let before = run(m, events.drop_last());
        lemma_pending_balance(m, events.drop_last(), id);
        lemma_run_wf(m, events.drop_last());
        if before.stack.len() > 0 {
            assert(before.scopes.contains_key(before.stack.last()));
            assert(before.stack.contains(before.stack.last()));
        }
        if before.scopes.contains_key(id) {
            assert(before.scopes[id].consistent(before.stack.contains(id)));
        }
    }
}

} // verus!
