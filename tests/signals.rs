use fault_guard::{
    handle_classified_fault, handle_fault, intercepted_signals, locate_module, walk_stack, BreakpointStack,
    BreakpointTable, CodeRange, FaultInfo, FaultSignal, GeneralRegisters, HandlerOutcome, LogicalFrame,
    RecoveryState, Register, Style, Transfer, NO_SCOPE,
};
use std::cell::Cell;
use std::sync::Arc;

type Callback = Box<dyn Fn() -> u64>;

fn regs(ip: u64) -> GeneralRegisters {
    GeneralRegisters {
        rax: 10,
        rbx: 11,
        rcx: 12,
        rdx: 13,
        rdi: 14,
        rsi: 15,
        rbp: 16,
        rsp: 17,
        r8: 18,
        r9: 19,
        r10: 20,
        r11: 21,
        r12: 22,
        r13: 23,
        r14: 24,
        r15: 25,
        rip: ip,
    }
}

fn one_frame(_module: usize) -> Vec<LogicalFrame> {
    vec![LogicalFrame { local_function_id: 1, locals: vec![Some(2)], stack: vec![] }]
}

#[test]
fn decode_fills_general_registers_only() {
    let f = FaultInfo::decode(0x1000, &regs(0x2000));
    assert_eq!(f.faulting_addr, 0x1000);
    assert_eq!(f.ip, 0x2000);
    assert_eq!(f.register(Register::Rax), Some(10));
    assert_eq!(f.register(Register::Rsp), Some(17));
    assert_eq!(f.register(Register::R15), Some(25));
    assert_eq!(f.register(Register::Xmm0), None);
    assert_eq!(f.register(Register::Xmm7), None);
    assert_eq!(Register::R15.index(), 15);
    assert_eq!(Register::Xmm0.index(), 16);
    assert_eq!(f.known_registers[Register::Rcx.index()], Some(12));
}

#[test]
fn intercepted_signal_classes() {
    assert_eq!(
        intercepted_signals(),
        vec![
            FaultSignal::FloatingPoint,
            FaultSignal::IllegalInstruction,
            FaultSignal::SegmentationViolation,
            FaultSignal::BusError,
            FaultSignal::DebugTrap,
        ]
    );
}

#[test]
fn locate_module_finds_first_holding_range() {
    let modules = vec![CodeRange { base: 0x1000, len: 0x100 }, CodeRange { base: 0x2000, len: 0x10 }];
    assert_eq!(locate_module(&modules, 0x1000), Some(0));
    assert_eq!(locate_module(&modules, 0x10ff), Some(0));
    assert_eq!(locate_module(&modules, 0x1100), None);
    assert_eq!(locate_module(&modules, 0x200f), Some(1));
    assert_eq!(locate_module(&modules, 0x2010), None);
    assert_eq!(locate_module(&Vec::new(), 0x2000), None);
}

#[test]
fn unknown_address_yields_no_frame() {
    let modules = vec![CodeRange { base: 0x1000, len: 0x100 }];
    let asked = Cell::new(false);
    let frames = walk_stack(&modules, 0x5000, |_m| {
        asked.set(true);
        one_frame(0)
    });
    assert!(frames.is_empty());
    assert!(!asked.get());
    let frames = walk_stack(&modules, 0x1010, one_frame);
    assert_eq!(frames.len(), 1);
}

#[test]
fn breakpoint_runs_instead_of_unwinding() {
    let mut state: RecoveryState<u32> = RecoveryState::new();
    let scope = state.enter(9);
    let mut table: BreakpointTable<Callback> = BreakpointTable::new();
    table.insert(0x4242, Box::new(|| 77));
    let mut breakpoints: BreakpointStack<Callback> = BreakpointStack::new();
    breakpoints.push(Arc::new(table));
    let modules = vec![CodeRange { base: 0x4000, len: 0x1000 }];
    let fault = FaultInfo::decode(0, &regs(0x4242));
    match handle_classified_fault(&mut state, &breakpoints, &modules, Some(FaultSignal::DebugTrap), 5, fault, one_frame) {
        HandlerOutcome::Breakpoint(cb) => assert_eq!(cb(), 77),
        HandlerOutcome::Unwind { .. } => panic!("the breakpoint should have run"),
    }
    assert_eq!(state.active_target(), 9);
    assert!(state.last_fault().is_none());
    // The protected call then completes normally.
    state.leave(scope);
    assert_eq!(state.active_target(), NO_SCOPE);
}

#[test]
fn breakpoint_found_through_operating_system_signal_number() {
    let mut state: RecoveryState<u32> = RecoveryState::new();
    let _scope = state.enter(9);
    let mut table: BreakpointTable<Callback> = BreakpointTable::new();
    table.insert(0x4242, Box::new(|| 5));
    let mut breakpoints: BreakpointStack<Callback> = BreakpointStack::new();
    breakpoints.push(Arc::new(table));
    let fault = FaultInfo::decode(0, &regs(0x4242));
    let outcome = handle_fault(&mut state, &breakpoints, &Vec::new(), libc::SIGTRAP, fault, one_frame);
    assert!(matches!(outcome, HandlerOutcome::Breakpoint(_)));
}

#[test]
fn segmentation_fault_is_reported_and_unwound() {
    let mut state: RecoveryState<u32> = RecoveryState::new();
    let _scope = state.enter(9);
    let mut table: BreakpointTable<Callback> = BreakpointTable::new();
    table.insert(0x4242, Box::new(|| 5));
    let mut breakpoints: BreakpointStack<Callback> = BreakpointStack::new();
    breakpoints.push(Arc::new(table));
    let modules = vec![CodeRange { base: 0x4000, len: 0x1000 }];
    let fault = FaultInfo::decode(0x8, &regs(0x4242));
    match handle_fault(&mut state, &breakpoints, &modules, libc::SIGSEGV, fault, one_frame) {
        HandlerOutcome::Unwind { frames, report, transfer } => {
            assert_eq!(frames.len(), 1);
            assert_eq!(report[3].text, "Backtrace:");
            assert_eq!(transfer, Transfer::Resume { target: 9, code: libc::SIGSEGV });
        }
        HandlerOutcome::Breakpoint(_) => panic!("only a debug trap stops at a breakpoint"),
    }
    assert_eq!(state.last_fault().map(|f| f.faulting_addr), Some(0x8));
}

#[test]
fn debug_trap_without_breakpoint_unwinds() {
    let mut state: RecoveryState<u32> = RecoveryState::new();
    let breakpoints: BreakpointStack<Callback> = BreakpointStack::new();
    let fault = FaultInfo::decode(0, &regs(0x9999));
    match handle_classified_fault(&mut state, &breakpoints, &Vec::new(), Some(FaultSignal::DebugTrap), 5, fault, one_frame) {
        HandlerOutcome::Unwind { frames, report, transfer } => {
            assert!(frames.is_empty());
            assert_eq!(report[3].style, Style::Notice);
            assert_eq!(transfer, Transfer::Abort);
        }
        HandlerOutcome::Breakpoint(_) => panic!("no breakpoint is registered"),
    }
}

#[test]
fn innermost_breakpoint_table_wins() {
    let mut outer: BreakpointTable<Callback> = BreakpointTable::new();
    outer.insert(0x10, Box::new(|| 1));
    outer.insert(0x20, Box::new(|| 2));
    let mut inner: BreakpointTable<Callback> = BreakpointTable::new();
    inner.insert(0x10, Box::new(|| 3));
    let mut stack: BreakpointStack<Callback> = BreakpointStack::new();
    stack.push(Arc::new(outer));
    stack.push(Arc::new(inner));
    assert_eq!(stack.depth(), 2);
    assert_eq!(stack.lookup(0x10).map(|cb| cb()), Some(3));
    assert_eq!(stack.lookup(0x20).map(|cb| cb()), Some(2));
    assert!(stack.lookup(0x30).is_none());
    assert!(stack.pop().is_some());
    assert_eq!(stack.lookup(0x10).map(|cb| cb()), Some(1));
    assert!(stack.pop().is_some());
    assert!(stack.pop().is_none());
    assert!(stack.lookup(0x10).is_none());
}
