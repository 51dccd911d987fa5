use vstd::prelude::*;
use crate::registers::FaultInfo;

verus! {

/// The recovery target that means "no protected call is live on this thread".
pub const NO_SCOPE: u64 = 0;

/// The resumption code of an explicit throw. Operating system signal numbers
/// are all below it, so a resumed scope can tell a throw from a fault.
pub const THROW_CODE: i32 = 0xffff;

/// A resumption code that names an operating system signal.
pub open spec fn is_signal_code(code: i32) -> bool {
    0 < code < THROW_CODE
}

/// Why a protected call did not return normally.
pub enum CallProtError<P> {
    /// A hardware fault ended the call; no further information is carried.
    UnknownTrap,
    /// The call was ended by an explicit throw of this payload.
    HostError(P),
}

/// Where control goes from the point at which a fault or a throw was raised.
#[derive(Clone, Copy, Debug, PartialEq, Eq, Structural)]
pub enum Transfer {
    /// Jump back to the live scope that installed `target`, handing it `code`.
    Resume { target: u64, code: i32 },
    /// No scope is live on this thread: the process must terminate.
    Abort,
}

/// The per-thread recovery slots as a mathematical value.
pub struct RecoveryView<P> {
    /// The recovery target of the innermost live protected call, or `NO_SCOPE`.
    pub active: u64,
    /// A thrown payload on its way to the scope that catches it.
    pub pending: Option<P>,
    /// The snapshot of the most recent fault that was unwound.
    pub last_fault: Option<FaultInfo>,
}

impl<P> RecoveryView<P> {
    /// The state once a protected call has installed `target`.
    pub open spec fn entered(self, target: u64) -> RecoveryView<P> {
        RecoveryView { active: target, ..self }
    }

    /// The state once a scope has put back the target it had saved.
    pub open spec fn restored(self, saved: u64) -> RecoveryView<P> {
        RecoveryView { active: saved, ..self }
    }

    /// The state after `throw(payload)`.
    pub open spec fn thrown(self, payload: P) -> RecoveryView<P> {
        if self.active == NO_SCOPE {
            self
        } else {
            RecoveryView { pending: Some(payload), ..self }
        }
    }

    /// The state after a fault with snapshot `fault` is unwound.
    pub open spec fn unwound(self, fault: FaultInfo) -> RecoveryView<P> {
        if self.active == NO_SCOPE {
            self
        } else {
            RecoveryView { last_fault: Some(fault), ..self }
        }
    }

    /// Where control goes from a throw, a fault or a direct trap.
    pub open spec fn transfer(self, code: i32) -> Transfer {
        if self.active == NO_SCOPE {
            Transfer::Abort
        } else {
            Transfer::Resume { target: self.active, code }
        }
    }

    /// The state after a scope that had saved `saved` regains control
    /// through a jump: its target is put back and the pending slot emptied.
    pub open spec fn recovered(self, saved: u64) -> RecoveryView<P> {
        RecoveryView { active: saved, pending: None, ..self }
    }

    /// The error that such a scope reports.
    pub open spec fn recovered_error(self) -> CallProtError<P> {
        match self.pending {
            Some(p) => CallProtError::HostError(p),
            None => CallProtError::UnknownTrap,
        }
    }
}

/// The recovery slots of one thread: the active recovery target, the pending
/// thrown payload, and the last fault snapshot.
pub struct RecoveryState<P> {
    active: u64,
    pending: Option<P>,
    last_fault: Option<FaultInfo>,
}

/// The saved state of one protected call, held by that call alone: the
/// target that was active when it was entered, and the target it installed.
pub struct Scope {
    saved: u64,
    target: u64,
}

impl Scope {
    pub closed spec fn saved(self) -> u64 {
        self.saved
    }

    pub closed spec fn target(self) -> u64 {
        self.target
    }

    /// The recovery target this scope installed.
    pub fn installed(&self) -> (t: u64)
        ensures
            t == self.target(),
    {
        self.target
    }
}

impl<P> View for RecoveryState<P> {
    type V = RecoveryView<P>;

    closed spec fn view(&self) -> RecoveryView<P> {
        RecoveryView { active: self.active, pending: self.pending, last_fault: self.last_fault }
    }
}

impl<P> RecoveryState<P> {
    /// The slots of a thread on which no protected call has run.
    pub fn new() -> (s: Self)
        ensures
            s@ == (RecoveryView::<P> { active: NO_SCOPE, pending: None, last_fault: None }),
    {
        RecoveryState { active: NO_SCOPE, pending: None, last_fault: None }
    }

    /// Whether a protected call is live on this thread.
    pub fn is_protected(&self) -> (b: bool)
        ensures
            b == (self@.active != NO_SCOPE),
    {
        self.active != NO_SCOPE
    }

    /// The recovery target of the innermost live protected call.
    pub fn active_target(&self) -> (t: u64)
        ensures
            t == self@.active,
    {
        self.active
    }

    /// Whether a thrown payload is waiting for its scope.
    pub fn has_pending(&self) -> (b: bool)
        ensures
            b == self@.pending is Some,
    {
        self.pending.is_some()
    }

    /// The snapshot of the most recent fault that was unwound.
    pub fn last_fault(&self) -> (f: Option<FaultInfo>)
        ensures
            f == self@.last_fault,
    {
        self.last_fault
    }

    /// Enters a protected call that resumes at `target`: the previous target
    /// is handed back in the scope, to be put back on every exit path.
    pub fn enter(&mut self, target: u64) -> (scope: Scope)
        requires
            target != NO_SCOPE,
        ensures
            final(self)@ == old(self)@.entered(target),
            scope.saved() == old(self)@.active,
            scope.target() == target,
    {
        let scope = Scope { saved: self.active, target };
        self.active = target;
        scope
    }

    /// Leaves a protected call whose body returned normally.
    pub fn leave(&mut self, scope: Scope)
        ensures
            final(self)@ == old(self)@.restored(scope.saved()),
    {
        self.active = scope.saved;
    }

    /// Called by a scope that regained control through a jump: puts back its
    /// saved target first, then reports a thrown payload if one is pending,
    /// and an unknown trap otherwise.
    pub fn recover(&mut self, scope: Scope) -> (e: CallProtError<P>)
        ensures
            final(self)@ == old(self)@.recovered(scope.saved()),
            e == old(self)@.recovered_error(),
    {
        self.active = scope.saved;
        match self.pending.take() {
            Some(p) => CallProtError::HostError(p),
            None => CallProtError::UnknownTrap,
        }
    }
}

/// Raises `payload` towards the innermost live protected call. With no live
/// call the payload is dropped and the process must abort.
pub fn throw<P>(state: &mut RecoveryState<P>, payload: P) -> (t: Transfer)
    ensures
        final(state)@ == old(state)@.thrown(payload),
        t == old(state)@.transfer(THROW_CODE),
        old(state)@.active == NO_SCOPE ==> t == Transfer::Abort,
{
    if state.active == NO_SCOPE {
        return Transfer::Abort;
    }
    state.pending = Some(payload);
    Transfer::Resume { target: state.active, code: THROW_CODE }
}

/// Unwinds a fault delivered by signal `signum` to the innermost live
/// protected call, keeping its snapshot. With no live call the process must
/// abort.
pub fn do_unwind<P>(state: &mut RecoveryState<P>, signum: i32, fault: FaultInfo) -> (t: Transfer)
    requires
        is_signal_code(signum),
    ensures
        final(state)@ == old(state)@.unwound(fault),
        t == old(state)@.transfer(signum),
        old(state)@.active == NO_SCOPE ==> t == Transfer::Abort,
{
    if state.active == NO_SCOPE {
        return Transfer::Abort;
    }
    state.last_fault = Some(fault);
    Transfer::Resume { target: state.active, code: signum }
}

/// Jumps straight back to the innermost live protected call, which then
/// reports an unknown trap unless a payload is pending.
pub fn trigger_trap<P>(state: &RecoveryState<P>) -> (t: Transfer)
    ensures
        t == state@.transfer(0),
{
    if state.active == NO_SCOPE {
        Transfer::Abort
    } else {
        Transfer::Resume { target: state.active, code: 0 }
    }
}

/// The state once protected calls with targets `targets` have been entered,
/// outermost first, from `v`.
pub open spec fn entered_all<P>(v: RecoveryView<P>, targets: Seq<u64>) -> RecoveryView<P>
    decreases targets.len(),
{
    if targets.len() == 0 {
        v
    } else {
        entered_all(v, targets.drop_last()).entered(targets.last())
    }
}

/// The target that the call at depth `i` of such a nest saved on entry.
pub open spec fn saved_at<P>(v: RecoveryView<P>, targets: Seq<u64>, i: int) -> u64 {
    if i == 0 {
        v.active
    } else {
        targets[i - 1]
    }
}

proof fn lemma_entered_all_shape<P>(v: RecoveryView<P>, targets: Seq<u64>)
    ensures
        entered_all(v, targets) == (if targets.len() == 0 {
            v
        } else {
            v.entered(targets.last())
        }),
    decreases targets.len(),
{
    if targets.len() > 0 {
        lemma_entered_all_shape(v, targets.drop_last());
    }
}

/// A protected call whose body returns normally leaves the recovery slots
/// exactly as it found them, at every depth of nesting: after the innermost
/// call of a nest exits, the state is the one its enclosing calls had.
pub proof fn lemma_normal_exit_restores<P>(v: RecoveryView<P>, targets: Seq<u64>)
    requires
        targets.len() > 0,
    ensures
        entered_all(v, targets).restored(saved_at(v, targets, targets.len() - 1))
            == entered_all(v, targets.drop_last()),
{
    lemma_entered_all_shape(v, targets);
    lemma_entered_all_shape(v, targets.drop_last());
    let n = targets.len();
    if n > 1 {
        assert(targets.drop_last().last() == targets[n - 2]);
    }
}

/// However deeply protected calls are nested, a fault is caught by the
/// innermost one alone. It reports an unknown trap, and once it has put its
/// saved target back, the enclosing calls find the state in which they were,
/// apart from the retained snapshot of the fault.
pub proof fn lemma_fault_caught_by_innermost<P>(
    v: RecoveryView<P>,
    targets: Seq<u64>,
    signum: i32,
    fault: FaultInfo,
)
    requires
        targets.len() > 0,
        forall|i: int| 0 <= i < targets.len() ==> targets[i] != NO_SCOPE,
        v.pending is None,
        is_signal_code(signum),
    ensures
        ({
            let w = entered_all(v, targets);
            let u = w.unwound(fault);
            let n = targets.len() as int;
            &&& w.transfer(signum) == (Transfer::Resume { target: targets.last(), code: signum })
            &&& u.recovered_error() == CallProtError::<P>::UnknownTrap
            &&& u.recovered(saved_at(v, targets, n - 1)) == entered_all(
                RecoveryView { last_fault: Some(fault), ..v },
                targets.drop_last(),
            )
        }),
{
    let n = targets.len() as int;
    assert(targets[n - 1] != NO_SCOPE);
    lemma_entered_all_shape(v, targets);
    lemma_entered_all_shape(RecoveryView { last_fault: Some(fault), ..v }, targets.drop_last());
    if n > 1 {
        assert(targets.drop_last().last() == targets[n - 2]);
    }
}

/// A payload thrown inside a protected call reaches that call unchanged, and
/// the call leaves the slots as it found them.
pub proof fn lemma_throw_reaches_scope<P>(v: RecoveryView<P>, target: u64, payload: P)
    requires
        target != NO_SCOPE,
        v.pending is None,
    ensures
        v.entered(target).transfer(THROW_CODE) == (Transfer::Resume {
            target,
            code: THROW_CODE,
        }),
        v.entered(target).thrown(payload).recovered_error() == CallProtError::HostError(payload),
        v.entered(target).thrown(payload).recovered(v.active) == v,
{
}

/// Two faults in turn: one in an inner call, then one in the body of the
/// enclosing call after the inner call has reported it. Each is caught by
/// the call it was raised in, and the slots end as they began, apart from
/// the snapshot of the last fault.
pub proof fn lemma_sequential_faults<P>(
    v: RecoveryView<P>,
    outer: u64,
    inner: u64,
    first_signal: i32,
    first: FaultInfo,
    second_signal: i32,
    second: FaultInfo,
)
    requires
        outer != NO_SCOPE,
        inner != NO_SCOPE,
        v.pending is None,
        is_signal_code(first_signal),
        is_signal_code(second_signal),
    ensures
        ({
            let a = v.entered(outer);
            let b = a.entered(inner);
            let c = b.unwound(first).recovered(outer);
            &&& b.transfer(first_signal) == (Transfer::Resume { target: inner, code: first_signal })
            &&& b.unwound(first).recovered_error() == CallProtError::<P>::UnknownTrap
            &&& c == RecoveryView { last_fault: Some(first), ..a }
            &&& c.transfer(second_signal) == (Transfer::Resume {
                target: outer,
                code: second_signal,
            })
            &&& c.unwound(second).recovered_error() == CallProtError::<P>::UnknownTrap
            &&& c.unwound(second).recovered(v.active) == RecoveryView {
                last_fault: Some(second),
                ..v
            }
        }),
{
}

} // verus!
