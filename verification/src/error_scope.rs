//! Nested error scopes: which operations are still pending in which scope,
//! which error a scope has recorded, and when the future handed out by a pop
//! is resolved.

use std::collections::HashMap;
use vstd::prelude::*;

verus! {

broadcast use vstd::std_specs::hash::group_hash_axioms;

/// Identifier of an error scope. Identifiers grow with every push and are
/// never handed out twice.
pub type ErrorScopeId = u64;

/// The category of errors that a scope was opened for.
#[derive(Clone, Copy, Debug, PartialEq, Eq, Structural)]
pub enum GPUErrorFilter {
    OutOfMemory,
    Validation,
}

/// An error that the backend reports for one operation.
#[derive(Debug, PartialEq, Eq)]
pub enum GPUError {
    Validation(String),
    OutOfMemory,
}

impl Clone for GPUError {
    fn clone(&self) -> (copy: Self)
        ensures
            copy == *self,
    {
        match self {
            GPUError::Validation(message) => GPUError::Validation(message.clone()),
            GPUError::OutOfMemory => GPUError::OutOfMemory,
        }
    }
}

/// State of the future that was attached to a scope when it was popped.
#[derive(Clone, Copy, Debug, PartialEq, Eq, Structural)]
pub enum PromiseState {
    Pending,
    Fulfilled,
}

/// What a popped scope's future holds at the moment it is handed out.
#[derive(Debug, PartialEq, Eq)]
pub enum Settlement {
    /// Operations are still pending and no error was recorded so far.
    Pending,
    /// Resolved, with the recorded error or with "no error".
    Resolved(Option<GPUError>),
}

/// The future returned by a successful pop, named by the scope it belongs to.
#[derive(Debug, PartialEq, Eq)]
pub struct PopFuture {
    pub scope: ErrorScopeId,
    pub settlement: Settlement,
}

/// Why a pop was rejected.
#[derive(Clone, Copy, Debug, PartialEq, Eq, Structural)]
pub enum ScopeError {
    NoActiveScope,
}

/// What became of one completion notice.
#[derive(Debug, PartialEq, Eq)]
pub enum Completion {
    /// No scope with that identifier is tracked; the notice was dropped.
    UnknownScope,
    /// The scope has no operation pending; the notice was dropped.
    NotPending,
    /// The notice was counted and no future is resolved by it.
    Counted,
    /// The notice was counted and resolves the scope's pop future.
    Resolved(Option<GPUError>),
}

/// One tracked scope.
#[derive(Debug)]
pub struct ErrorScopeInfo {
    pub filter: GPUErrorFilter,
    pub op_count: u64,
    pub error: Option<GPUError>,
    pub promise: Option<PromiseState>,
}

/// Mathematical value of one tracked scope.
pub struct ScopeState {
    pub filter: GPUErrorFilter,
    pub pending: nat,
    pub error: Option<GPUError>,
    pub promise: Option<PromiseState>,
}

impl View for ErrorScopeInfo {
    type V = ScopeState;

    open spec fn view(&self) -> ScopeState {
        ScopeState {
            filter: self.filter,
            pending: self.op_count as nat,
            error: self.error,
            promise: self.promise,
        }
    }
}

impl ScopeState {
    /// A scope right after it was pushed.
    pub open spec fn fresh(filter: GPUErrorFilter) -> ScopeState {
        ScopeState { filter, pending: 0, error: None, promise: None }
    }

    /// The recorded error after one more result came in: the first error
    /// stays, whatever follows.
    pub open spec fn record(self, result: Result<(), GPUError>) -> Option<GPUError> {
        match (self.error, result) {
            (Some(first), _) => Some(first),
            (None, Err(e)) => Some(e),
            (None, Ok(_)) => None,
        }
    }

    /// What a pop finds in this scope.
    pub open spec fn settlement(self) -> Settlement {
        if self.error is Some {
            Settlement::Resolved(self.error)
        } else if self.pending == 0 {
            Settlement::Resolved(None)
        } else {
            Settlement::Pending
        }
    }

    /// The per-scope part of the invariant; `active` says whether the scope
    /// is on the stack.
    pub open spec fn consistent(self, active: bool) -> bool {
        &&& self.promise is None <==> active
        &&& self.promise is Some ==> self.pending > 0
        &&& self.promise == Some(PromiseState::Pending) ==> self.error is None
        &&& self.promise == Some(PromiseState::Fulfilled) ==> self.error is Some
    }
}

/// Mathematical value of the scope bookkeeping: the stack of active scopes,
/// the table of all tracked scopes, and the next identifier.
#[verifier::ext_equal]
pub struct ScopeModel {
    pub stack: Seq<nat>,
    pub scopes: Map<nat, ScopeState>,
    pub next_id: nat,
}

impl ScopeModel {
    /// No scope was ever pushed.
    pub open spec fn empty() -> ScopeModel {
        ScopeModel { stack: Seq::empty(), scopes: Map::empty(), next_id: 0 }
    }

    /// Every active scope is tracked, the stack grows in the order of the
    /// identifiers, no tracked identifier is yet to be handed out, and a
    /// popped scope stays tracked exactly while operations are pending in it.
    pub open spec fn wf(self) -> bool {
        &&& forall|i: int| 0 <= i < self.stack.len() ==> self.scopes.contains_key(#[trigger] self.stack[i])
        &&& forall|i: int, j: int|
            0 <= i < j < self.stack.len() ==> #[trigger] self.stack[i] < #[trigger] self.stack[j]
        &&& forall|id: nat| #[trigger]
            self.scopes.contains_key(id) ==> id < self.next_id && self.scopes[id].consistent(
                self.stack.contains(id),
            )
    }

    /// The scope that new operations are attributed to.
    pub open spec fn current(self) -> Option<nat> {
        if self.stack.len() == 0 {
            None
        } else {
            Some(self.stack.last())
        }
    }

    /// A fresh scope, under the next identifier, is on top of the stack.
    pub open spec fn push(self, filter: GPUErrorFilter) -> ScopeModel {
        ScopeModel {
            stack: self.stack.push(self.next_id),
            scopes: self.scopes.insert(self.next_id, ScopeState::fresh(filter)),
            next_id: self.next_id + 1,
        }
    }

    /// Whether one more operation can be counted in the current scope.
    pub open spec fn can_reserve(self) -> bool {
        self.stack.len() > 0 ==> self.scopes[self.stack.last()].pending < u64::MAX
    }

    /// One more operation is pending in the current scope, if there is one.
    pub open spec fn reserve(self) -> ScopeModel {
        if self.stack.len() == 0 {
            self
        } else {
            let id = self.stack.last();
            let scope = self.scopes[id];
            ScopeModel {
                scopes: self.scopes.insert(id, ScopeState { pending: scope.pending + 1, ..scope }),
                ..self
            }
        }
    }

    /// The top scope leaves the stack. It leaves the table too unless
    /// operations are still pending in it; then its future is attached,
    /// fulfilled already if an error was recorded.
    pub open spec fn pop(self) -> ScopeModel {
        if self.stack.len() == 0 {
            self
        } else {
            let id = self.stack.last();
            let scope = self.scopes[id];
            ScopeModel {
                stack: self.stack.drop_last(),
                scopes: if scope.pending == 0 {
                    self.scopes.remove(id)
                } else {
                    self.scopes.insert(
                        id,
                        ScopeState {
                            promise: Some(
                                if scope.error is Some {
                                    PromiseState::Fulfilled
                                } else {
                                    PromiseState::Pending
                                },
                            ),
                            ..scope
                        },
                    )
                },
                next_id: self.next_id,
            }
        }
    }

    /// What a completion notice for `id` leads to.
    pub open spec fn completion(self, id: nat, result: Result<(), GPUError>) -> Completion {
        if !self.scopes.contains_key(id) {
            Completion::UnknownScope
        } else if self.scopes[id].pending == 0 {
            Completion::NotPending
        } else {
            let scope = self.scopes[id];
            if scope.promise == Some(PromiseState::Pending) {
                if scope.record(result) is Some {
                    Completion::Resolved(scope.record(result))
                } else if scope.pending == 1 {
                    Completion::Resolved(None)
                } else {
                    Completion::Counted
                }
            } else {
                Completion::Counted
            }
        }
    }

    /// The bookkeeping after a completion notice for `id`: one operation
    /// fewer is pending, the first error stays recorded, and a popped scope
    /// whose last operation completed is forgotten.
    pub open spec fn complete(self, id: nat, result: Result<(), GPUError>) -> ScopeModel {
        if !self.scopes.contains_key(id) || self.scopes[id].pending == 0 {
            self
        } else {
            let scope = self.scopes[id];
            let error = scope.record(result);
            ScopeModel {
                scopes: if scope.pending == 1 && scope.promise is Some {
                    self.scopes.remove(id)
                } else {
                    self.scopes.insert(
                        id,
                        ScopeState {
                            pending: (scope.pending - 1) as nat,
                            error,
                            promise: if scope.promise is Some && error is Some {
                                Some(PromiseState::Fulfilled)
                            } else {
                                scope.promise
                            },
                            ..scope
                        },
                    )
                },
                ..self
            }
        }
    }
}

/// The error scopes of one device.
pub struct ScopeContext {
    error_scopes: HashMap<ErrorScopeId, ErrorScopeInfo>,
    scope_stack: Vec<ErrorScopeId>,
    next_scope_id: ErrorScopeId,
}

impl View for ScopeContext {
    type V = ScopeModel;

    closed spec fn view(&self) -> ScopeModel {
        ScopeModel {
            stack: self.scope_stack@.map_values(|id: ErrorScopeId| id as nat),
            scopes: Map::new(
                |id: nat| id <= u64::MAX && self.error_scopes@.contains_key(id as u64),
                |id: nat| self.error_scopes@[id as u64]@,
            ),
            next_id: self.next_scope_id as nat,
        }
    }
}

impl ScopeContext {
    /// The invariant of the bookkeeping.
    pub closed spec fn wf(&self) -> bool {
        self@.wf()
    }

    /// What the invariant says of the bookkeeping's value, and what the
    /// machine adds: identifiers and counts fit in 64 bits.
    pub proof fn lemma_wf(&self)
        requires
            self.wf(),
        ensures
            self@.wf(),
            self@.next_id <= u64::MAX,
            forall|id: nat| #[trigger] self@.scopes.contains_key(id) ==> self@.scopes[id].pending <= u64::MAX,
    {
    }

    /// No scope is active or tracked; identifiers start at zero.
    pub fn new() -> (context: ScopeContext)
        ensures
            context.wf(),
            context@ == ScopeModel::empty(),
    {
        let context = ScopeContext {
            error_scopes: HashMap::new(),
            scope_stack: Vec::new(),
            next_scope_id: 0,
        };
        assert(context@.stack =~= Seq::empty());
        assert(context@.scopes =~= Map::empty());
        context
    }

    /// Opens a scope on top of the stack and returns its identifier.
    pub fn push(&mut self, filter: GPUErrorFilter) -> (id: ErrorScopeId)
        requires
            old(self).wf(),
            old(self)@.next_id < u64::MAX,
        ensures
            final(self).wf(),
            final(self)@ == old(self)@.push(filter),
            id as nat == old(self)@.next_id,
    {
        let id = self.next_scope_id;
        self.next_scope_id = id + 1;
        self.error_scopes.insert(
            id,
            ErrorScopeInfo { filter, op_count: 0, error: None, promise: None },
        );
        self.scope_stack.push(id);
        proof {
            let before = old(self)@;
            let after = self@;
            assert(after.stack =~= before.stack.push(before.next_id));
            assert(after.scopes =~= before.scopes.insert(before.next_id, ScopeState::fresh(filter)));
            lemma_push_wf(before, filter);
        }
        id
    }

    /// The scope that an operation issued now belongs to, if any; the
    /// operation is counted as pending in it.
    pub fn current_scope(&mut self) -> (id: Option<ErrorScopeId>)
        requires
            old(self).wf(),
            old(self)@.can_reserve(),
        ensures
            final(self).wf(),
            final(self)@ == old(self)@.reserve(),
            match id {
                Some(id) => old(self)@.current() == Some(id as nat),
                None => old(self)@.current() is None,
            },
    {
        let depth = self.scope_stack.len();
        if depth == 0 {
            return None;
        }
        let id = self.scope_stack[depth - 1];
        proof {
            assert(self@.stack[depth - 1] == id as nat);
            assert(self@.scopes.contains_key(id as nat));
        }
        match self.error_scopes.remove(&id) {
            Some(scope) => {
                self.error_scopes.insert(
                    id,
                    ErrorScopeInfo {
                        filter: scope.filter,
                        op_count: scope.op_count + 1,
                        error: scope.error,
                        promise: scope.promise,
                    },
                );
                proof {
                    assert(self@.stack =~= old(self)@.reserve().stack);
                    assert(self@.scopes =~= old(self)@.reserve().scopes);
                    lemma_reserve_wf(old(self)@);
                }
                Some(id)
            },
            None => vstd::pervasive::unreached(),
        }
    }

    /// Closes the top scope and returns its future; rejected when no scope
    /// is active.
    pub fn pop(&mut self) -> (result: Result<PopFuture, ScopeError>)
        requires
            old(self).wf(),
        ensures
            final(self).wf(),
            final(self)@ == old(self)@.pop(),
            match result {
                Ok(future) => {
                    &&& old(self)@.current() == Some(future.scope as nat)
                    &&& future.settlement == old(self)@.scopes[future.scope as nat].settlement()
                },
                Err(e) => old(self)@.current() is None && e == ScopeError::NoActiveScope,
            },
    {
        let id = match self.scope_stack.pop() {
            Some(id) => id,
            None => {
                assert(self@ =~= old(self)@);
                return Err(ScopeError::NoActiveScope);
            },
        };
        proof {
            assert(old(self)@.stack.last() == id as nat);
            assert(old(self)@.scopes.contains_key(id as nat));
        }
        match self.error_scopes.remove(&id) {
            Some(scope) => {
                let settlement = match &scope.error {
                    Some(e) => Settlement::Resolved(Some(e.clone())),
                    None => if scope.op_count == 0 {
                        Settlement::Resolved(None)
                    } else {
                        Settlement::Pending
                    },
                };
                if scope.op_count > 0 {
                    let promise = match &scope.error {
                        Some(_) => PromiseState::Fulfilled,
                        None => PromiseState::Pending,
                    };
                    self.error_scopes.insert(
                        id,
                        ErrorScopeInfo {
                            filter: scope.filter,
                            op_count: scope.op_count,
                            error: scope.error,
                            promise: Some(promise),
                        },
                    );
                }
                proof {
                    assert(self@.stack =~= old(self)@.pop().stack);
                    assert(self@.scopes =~= old(self)@.pop().scopes);
                    lemma_pop_wf(old(self)@);
                }
                Ok(PopFuture { scope: id, settlement })
            },
            None => vstd::pervasive::unreached(),
        }
    }

    /// Takes in the backend's notice that one operation issued in `scope`
    /// has completed with `result`.
    pub fn complete_operation(&mut self, scope: ErrorScopeId, result: Result<(), GPUError>) -> (outcome:
        Completion)
        requires
            old(self).wf(),
        ensures
            final(self).wf(),
            final(self)@ == old(self)@.complete(scope as nat, result),
            outcome == old(self)@.completion(scope as nat, result),
    {
        let info = match self.error_scopes.remove(&scope) {
            Some(info) => info,
            None => {
                assert(self@ =~= old(self)@);
                return Completion::UnknownScope;
            },
        };
        if info.op_count == 0 {
            self.error_scopes.insert(scope, info);
            assert(self@ =~= old(self)@);
            return Completion::NotPending;
        }
        let left = info.op_count - 1;
        let error = match info.error {
            Some(first) => Some(first),
            None => match result {
                Ok(_) => None,
                Err(e) => Some(e),
            },
        };
        let was_pending = match info.promise {
            Some(PromiseState::Pending) => true,
            _ => false,
        };
        let outcome = if was_pending {
            match &error {
                Some(e) => Completion::Resolved(Some(e.clone())),
                None => if left == 0 {
                    Completion::Resolved(None)
                } else {
                    Completion::Counted
                },
            }
        } else {
            Completion::Counted
        };
        if !(left == 0 && info.promise.is_some()) {
            let promise = if info.promise.is_some() && error.is_some() {
                Some(PromiseState::Fulfilled)
            } else {
                info.promise
            };
            self.error_scopes.insert(
                scope,
                ErrorScopeInfo { filter: info.filter, op_count: left, error, promise },
            );
        }
        proof {
            assert(self@.stack =~= old(self)@.complete(scope as nat, result).stack);
            assert(self@.scopes =~= old(self)@.complete(scope as nat, result).scopes);
            lemma_complete_wf(old(self)@, scope as nat, result);
        }
        outcome
    }

    /// How many scopes are active.
    pub fn depth(&self) -> (depth: usize)
        ensures
            depth == self@.stack.len(),
    {
        self.scope_stack.len()
    }

    /// The scope on top of the stack, if any; nothing is counted.
    pub fn top(&self) -> (id: Option<ErrorScopeId>)
        ensures
            match id {
                Some(id) => self@.current() == Some(id as nat),
                None => self@.current() is None,
            },
    {
        let depth = self.scope_stack.len();
        if depth == 0 {
            None
        } else {
            let id = self.scope_stack[depth - 1];
            assert(self@.stack[depth - 1] == id as nat);
            Some(id)
        }
    }

    /// Whether the scope is tracked: active, or popped with operations
    /// still pending.
    pub fn is_known(&self, id: ErrorScopeId) -> (known: bool)
        ensures
            known == self@.scopes.contains_key(id as nat),
    {
        self.error_scopes.contains_key(&id)
    }

    /// How many operations are pending in the scope, if it is tracked.
    pub fn pending_operations(&self, id: ErrorScopeId) -> (pending: Option<u64>)
        ensures
            match pending {
                Some(n) => self@.scopes.contains_key(id as nat) && self@.scopes[id as nat].pending == n,
                None => !self@.scopes.contains_key(id as nat),
            },
    {
        match self.error_scopes.get(&id) {
            Some(info) => Some(info.op_count),
            None => None,
        }
    }

    /// The error that the scope has recorded, if it is tracked and has
    /// recorded one.
    pub fn recorded_error(&self, id: ErrorScopeId) -> (error: Option<GPUError>)
        ensures
            error == if self@.scopes.contains_key(id as nat) {
                self@.scopes[id as nat].error
            } else {
                None
            },
    {
        match self.error_scopes.get(&id) {
            Some(info) => match &info.error {
                Some(e) => Some(e.clone()),
                None => None,
            },
            None => None,
        }
    }

    /// The state of the scope's pop future, if the scope is tracked and was
    /// popped.
    pub fn promise_state(&self, id: ErrorScopeId) -> (state: Option<PromiseState>)
        ensures
            state == if self@.scopes.contains_key(id as nat) {
                self@.scopes[id as nat].promise
            } else {
                None
            },
    {
        match self.error_scopes.get(&id) {
            Some(info) => info.promise,
            None => None,
        }
    }

    /// The filter that the scope was pushed with, if it is tracked.
    pub fn filter(&self, id: ErrorScopeId) -> (filter: Option<GPUErrorFilter>)
        ensures
            match filter {
                Some(f) => self@.scopes.contains_key(id as nat) && self@.scopes[id as nat].filter == f,
                None => !self@.scopes.contains_key(id as nat),
            },
    {
        match self.error_scopes.get(&id) {
            Some(info) => Some(info.filter),
            None => None,
        }
    }

    /// Whether a scope can still be pushed: whether an identifier is left.
    pub fn can_push(&self) -> (room: bool)
        ensures
            room == (self@.next_id < u64::MAX),
    {
        self.next_scope_id < u64::MAX
    }

    /// Whether one more operation can be counted in the current scope.
    pub fn can_reserve(&self) -> (room: bool)
        requires
            self.wf(),
        ensures
            room == self@.can_reserve(),
    {
        let depth = self.scope_stack.len();
        if depth == 0 {
            return true;
        }
        let id = self.scope_stack[depth - 1];
        proof {
            assert(self@.stack[depth - 1] == id as nat);
            assert(self@.scopes.contains_key(id as nat));
        }
        match self.error_scopes.get(&id) {
            Some(info) => info.op_count < u64::MAX,
            None => vstd::pervasive::unreached(),
        }
    }
}

/// A push keeps the invariant.
pub proof fn lemma_push_wf(m: ScopeModel, filter: GPUErrorFilter)
    requires
        m.wf(),
    ensures
        m.push(filter).wf(),
{
    let after = m.push(filter);
    assert forall|i: int| 0 <= i < after.stack.len() implies after.scopes.contains_key(
        #[trigger] after.stack[i],
    ) by {
        if i < m.stack.len() {
            assert(after.stack[i] == m.stack[i]);
        }
    }
    assert forall|i: int, j: int| 0 <= i < j < after.stack.len() implies #[trigger] after.stack[i]
        < #[trigger] after.stack[j] by {
        assert(after.stack[i] == m.stack[i]);
        assert(m.scopes.contains_key(m.stack[i]));
        if j < m.stack.len() {
            assert(after.stack[j] == m.stack[j]);
        }
    }
    assert forall|id: nat| #[trigger] after.scopes.contains_key(id) implies id < after.next_id
        && after.scopes[id].consistent(after.stack.contains(id)) by {
        if id == m.next_id {
            assert(after.stack[m.stack.len() as int] == id);
        } else {
            assert(m.scopes.contains_key(id));
            if m.stack.contains(id) {
                let i = choose|i: int| 0 <= i < m.stack.len() && m.stack[i] == id;
                assert(after.stack[i] == id);
            }
            if after.stack.contains(id) {
                let i = choose|i: int| 0 <= i < after.stack.len() && after.stack[i] == id;
                assert(m.stack[i] == id);
            }
        }
    }
}

/// Counting one more operation keeps the invariant.
pub proof fn lemma_reserve_wf(m: ScopeModel)
    requires
        m.wf(),
    ensures
        m.reserve().wf(),
{
    let after = m.reserve();
    if m.stack.len() > 0 {
        assert(m.scopes.contains_key(m.stack.last()));
        assert forall|id: nat| #[trigger] after.scopes.contains_key(id) implies id < after.next_id
            && after.scopes[id].consistent(after.stack.contains(id)) by {
            assert(m.scopes.contains_key(id));
        }
    }
}

/// A pop keeps the invariant.
pub proof fn lemma_pop_wf(m: ScopeModel)
    requires
        m.wf(),
    ensures
        m.pop().wf(),
{
    let after = m.pop();
    if m.stack.len() > 0 {
        let top = m.stack.last();
        assert(m.scopes.contains_key(top));
        assert forall|i: int| 0 <= i < after.stack.len() implies after.scopes.contains_key(
            #[trigger] after.stack[i],
        ) by {
            assert(after.stack[i] == m.stack[i]);
            assert(m.stack[i] < m.stack[m.stack.len() - 1]);
        }
        assert forall|i: int, j: int| 0 <= i < j < after.stack.len() implies #[trigger] after.stack[i]
            < #[trigger] after.stack[j] by {
            assert(after.stack[i] == m.stack[i]);
            assert(after.stack[j] == m.stack[j]);
        }
        assert forall|id: nat| #[trigger] after.scopes.contains_key(id) implies id < after.next_id
            && after.scopes[id].consistent(after.stack.contains(id)) by {
            assert(m.scopes.contains_key(id));
            if id == top {
                if after.stack.contains(id) {
                    let i = choose|i: int| 0 <= i < after.stack.len() && after.stack[i] == id;
                    assert(m.stack[i] < m.stack[m.stack.len() - 1]);
                }
            } else {
                if m.stack.contains(id) {
                    let i = choose|i: int| 0 <= i < m.stack.len() && m.stack[i] == id;
                    assert(after.stack[i] == id);
                }
                if after.stack.contains(id) {
                    let i = choose|i: int| 0 <= i < after.stack.len() && after.stack[i] == id;
                    assert(m.stack[i] == id);
                }
            }
        }
    }
}

/// A completion notice keeps the invariant.
pub proof fn lemma_complete_wf(m: ScopeModel, id: nat, result: Result<(), GPUError>)
    requires
        m.wf(),
    ensures
        m.complete(id, result).wf(),
{
    let after = m.complete(id, result);
    if m.scopes.contains_key(id) && m.scopes[id].pending > 0 {
        assert forall|i: int| 0 <= i < after.stack.len() implies after.scopes.contains_key(
            #[trigger] after.stack[i],
        ) by {
            assert(m.scopes.contains_key(m.stack[i]));
            assert(m.stack.contains(m.stack[i]));
        }
        assert forall|other: nat| #[trigger] after.scopes.contains_key(other) implies other
            < after.next_id && after.scopes[other].consistent(after.stack.contains(other)) by {
            assert(m.scopes.contains_key(other));
        }
    }
}

} // verus!
