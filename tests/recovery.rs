use fault_guard::{do_unwind, throw, trigger_trap, CallProtError, FaultInfo, GeneralRegisters, RecoveryState, Transfer, NO_SCOPE, THROW_CODE};

fn snapshot(ip: u64) -> FaultInfo {
    let regs = GeneralRegisters {
        rax: 1,
        rbx: 2,
        rcx: 3,
        rdx: 4,
        rdi: 5,
        rsi: 6,
        rbp: 7,
        rsp: 8,
        r8: 9,
        r9: 10,
        r10: 11,
        r11: 12,
        r12: 13,
        r13: 14,
        r14: 15,
        r15: 16,
        rip: ip,
    };
    FaultInfo::decode(0xdead, &regs)
}

#[test]
fn fresh_thread_has_no_scope() {
    let state: RecoveryState<String> = RecoveryState::new();
    assert!(!state.is_protected());
    assert_eq!(state.active_target(), NO_SCOPE);
    assert!(!state.has_pending());
    assert!(state.last_fault().is_none());
}

#[test]
fn normal_exit_restores_recovery_state() {
    let mut state: RecoveryState<String> = RecoveryState::new();
    let scope = state.enter(100);
    assert_eq!(scope.installed(), 100);
    assert_eq!(state.active_target(), 100);
    state.leave(scope);
    assert_eq!(state.active_target(), NO_SCOPE);
    assert!(!state.has_pending());
    // A second protected call behaves as if the first never ran.
    let again = state.enter(200);
    assert_eq!(trigger_trap(&state), Transfer::Resume { target: 200, code: 0 });
    state.leave(again);
    assert_eq!(state.active_target(), NO_SCOPE);
}

#[test]
fn throw_delivers_payload_unchanged() {
    let mut state: RecoveryState<Vec<u8>> = RecoveryState::new();
    let scope = state.enter(7);
    let payload = vec![0u8, 1, 2, 255, 42];
    let t = throw(&mut state, payload.clone());
    assert_eq!(t, Transfer::Resume { target: 7, code: THROW_CODE });
    assert!(state.has_pending());
    match state.recover(scope) {
        CallProtError::HostError(p) => assert_eq!(p, payload),
        CallProtError::UnknownTrap => panic!("expected the thrown payload"),
    }
    assert!(!state.has_pending());
    assert_eq!(state.active_target(), NO_SCOPE);
}

#[test]
fn throw_without_scope_aborts() {
    let mut state: RecoveryState<u32> = RecoveryState::new();
    assert_eq!(throw(&mut state, 5), Transfer::Abort);
    assert!(!state.has_pending());
}

#[test]
fn fault_without_scope_aborts() {
    let mut state: RecoveryState<u32> = RecoveryState::new();
    assert_eq!(do_unwind(&mut state, 11, snapshot(0x40)), Transfer::Abort);
    assert!(state.last_fault().is_none());
    assert_eq!(trigger_trap(&state), Transfer::Abort);
}

#[test]
fn fault_is_reported_as_unknown_trap() {
    let mut state: RecoveryState<u32> = RecoveryState::new();
    let scope = state.enter(3);
    let t = do_unwind(&mut state, 11, snapshot(0x40));
    assert_eq!(t, Transfer::Resume { target: 3, code: 11 });
    assert_ne!(11, THROW_CODE);
    assert!(matches!(state.recover(scope), CallProtError::UnknownTrap));
    assert_eq!(state.last_fault().map(|f| f.ip), Some(0x40));
    assert_eq!(state.active_target(), NO_SCOPE);
}

#[test]
fn innermost_scope_catches_fault_at_every_depth() {
    for depth in 1u64..6 {
        let mut state: RecoveryState<u32> = RecoveryState::new();
        let mut scopes = Vec::new();
        for d in 1..=depth {
            scopes.push(state.enter(d * 10));
        }
        let t = do_unwind(&mut state, 8, snapshot(depth));
        assert_eq!(t, Transfer::Resume { target: depth * 10, code: 8 });
        let inner = scopes.pop().unwrap();
        assert!(matches!(state.recover(inner), CallProtError::UnknownTrap));
        // The enclosing calls find their own target again and exit normally.
        let mut expected = (depth - 1) * 10;
        while let Some(outer) = scopes.pop() {
            assert_eq!(state.active_target(), expected);
            state.leave(outer);
            expected = expected.saturating_sub(10);
        }
        assert_eq!(state.active_target(), NO_SCOPE);
    }
}

#[test]
fn sequential_faults_in_nested_scopes() {
    let mut state: RecoveryState<u32> = RecoveryState::new();
    let outer = state.enter(1);
    let inner = state.enter(2);
    assert_eq!(do_unwind(&mut state, 11, snapshot(0x10)), Transfer::Resume { target: 2, code: 11 });
    assert!(matches!(state.recover(inner), CallProtError::UnknownTrap));
    assert_eq!(state.active_target(), 1);
    // A second, independent fault in the body of the outer call.
    assert_eq!(do_unwind(&mut state, 4, snapshot(0x20)), Transfer::Resume { target: 1, code: 4 });
    assert!(matches!(state.recover(outer), CallProtError::UnknownTrap));
    assert_eq!(state.active_target(), NO_SCOPE);
    assert_eq!(state.last_fault().map(|f| f.ip), Some(0x20));
}

#[test]
fn thrown_payload_in_inner_scope_leaves_outer_unaffected() {
    let mut state: RecoveryState<&'static str> = RecoveryState::new();
    let outer = state.enter(1);
    let inner = state.enter(2);
    assert_eq!(throw(&mut state, "inner"), Transfer::Resume { target: 2, code: THROW_CODE });
    assert!(matches!(state.recover(inner), CallProtError::HostError("inner")));
    assert_eq!(state.active_target(), 1);
    assert!(!state.has_pending());
    state.leave(outer);
    assert_eq!(state.active_target(), NO_SCOPE);
}
