use vstd::prelude::*;
use std::convert::TryFrom;
use nix::sys::signal::Signal;
use crate::backtrace::{line_views, locate, render_report, report_lines, walk_stack, CodeRange, LogicalFrame, ReportLine};
use crate::breakpoints::{dispatch, BreakpointStack};
use crate::recovery::{do_unwind, is_signal_code, RecoveryState, Transfer};
use crate::registers::FaultInfo;

verus! {

/// The five classes of fault signal that are intercepted.
#[derive(Clone, Copy, Debug, PartialEq, Eq, Structural)]
pub enum FaultSignal {
    /// An arithmetic exception.
    FloatingPoint,
    /// An illegal instruction.
    IllegalInstruction,
    /// An illegal memory access.
    SegmentationViolation,
    /// A bus error.
    BusError,
    /// A debug trap, which may stop at a registered breakpoint.
    DebugTrap,
}

/// The fault signals, in the order in which handlers are installed for them.
pub fn intercepted_signals() -> (r: Vec<FaultSignal>)
    ensures
        r@ == seq![
            FaultSignal::FloatingPoint,
            FaultSignal::IllegalInstruction,
            FaultSignal::SegmentationViolation,
            FaultSignal::BusError,
            FaultSignal::DebugTrap,
        ],
{
    let mut r: Vec<FaultSignal> = Vec::new();
    r.push(FaultSignal::FloatingPoint);
    r.push(FaultSignal::IllegalInstruction);
    r.push(FaultSignal::SegmentationViolation);
    r.push(FaultSignal::BusError);
    r.push(FaultSignal::DebugTrap);
    proof {
        assert(r@ =~= seq![
            FaultSignal::FloatingPoint,
            FaultSignal::IllegalInstruction,
            FaultSignal::SegmentationViolation,
            FaultSignal::BusError,
            FaultSignal::DebugTrap,
        ]);
    }
    r
}

/// Relies on nix's `Signal::try_from`: which signal, if any, an operating
/// system signal number names on this platform. Numbering differs between
/// platforms, so nothing is stated of the answer.
#[verifier::external_body]
fn fault_signal_of(signum: i32) -> (r: Option<FaultSignal>) {
    match Signal::try_from(signum) {
        Ok(Signal::SIGFPE) => Some(FaultSignal::FloatingPoint),
        Ok(Signal::SIGILL) => Some(FaultSignal::IllegalInstruction),
        Ok(Signal::SIGSEGV) => Some(FaultSignal::SegmentationViolation),
        Ok(Signal::SIGBUS) => Some(FaultSignal::BusError),
        Ok(Signal::SIGTRAP) => Some(FaultSignal::DebugTrap),
        _ => None,
    }
}

/// What the signal handler does about one fault.
pub enum HandlerOutcome<'a, C> {
    /// Run this breakpoint callback and resume the faulting code.
    Breakpoint(&'a C),
    /// Print `report` and transfer control as `transfer` says.
    Unwind { frames: Vec<LogicalFrame>, report: Vec<ReportLine>, transfer: Transfer },
}

/// The handler's decision on a fault of class `kind` raised as signal
/// `signum`, with snapshot `fault`. A debug trap at an address that a live
/// breakpoint table holds runs that breakpoint and changes nothing else.
/// Any other fault is reported, with the frames that `read_frames` gives
/// for the module holding the faulting instruction, and unwound to the
/// innermost protected call.
pub fn handle_classified_fault<'a, P, C, F: FnOnce(usize) -> Vec<LogicalFrame>>(
    state: &mut RecoveryState<P>,
    breakpoints: &'a BreakpointStack<C>,
    modules: &Vec<CodeRange>,
    kind: Option<FaultSignal>,
    signum: i32,
    fault: FaultInfo,
    read_frames: F,
) -> (r: HandlerOutcome<'a, C>)
    requires
        is_signal_code(signum),
        forall|i: usize| i < modules@.len() ==> read_frames.requires((i,)),
    ensures
        match r {
            HandlerOutcome::Breakpoint(c) => {
                &&& kind == Some(FaultSignal::DebugTrap)
                &&& dispatch(breakpoints@, fault.ip) == Some(*c)
                &&& final(state)@ == old(state)@
            },
            HandlerOutcome::Unwind { frames, report, transfer } => {
                &&& (kind == Some(FaultSignal::DebugTrap) ==> dispatch(breakpoints@, fault.ip) is None)
                &&& (locate(modules@, fault.ip) is None ==> frames@.len() == 0)
                &&& (locate(modules@, fault.ip) matches Some(i) ==> read_frames.ensures(
                    (i as usize,),
                    frames,
                ))
                &&& line_views(report@) == report_lines(frames@)
                &&& transfer == old(state)@.transfer(signum)
                &&& final(state)@ == old(state)@.unwound(fault)
            },
        },
{
    if kind == Some(FaultSignal::DebugTrap) {
        match breakpoints.lookup(fault.ip) {
            Some(c) => {
                return HandlerOutcome::Breakpoint(c);
            },
            None => {},
        }
    }
    let frames = walk_stack(modules, fault.ip, read_frames);
    let report = render_report(&frames);
    let transfer = do_unwind(state, signum, fault);
    HandlerOutcome::Unwind { frames, report, transfer }
}

/// The handler's decision on a fault raised as signal `signum`: the signal
/// is classified, then decided on as `handle_classified_fault` says.
pub fn handle_fault<'a, P, C, F: FnOnce(usize) -> Vec<LogicalFrame>>(
    state: &mut RecoveryState<P>,
    breakpoints: &'a BreakpointStack<C>,
    modules: &Vec<CodeRange>,
    signum: i32,
    fault: FaultInfo,
    read_frames: F,
) -> (r: HandlerOutcome<'a, C>)
    requires
        is_signal_code(signum),
        forall|i: usize| i < modules@.len() ==> read_frames.requires((i,)),
    ensures
        match r {
            HandlerOutcome::Breakpoint(c) => {
                &&& dispatch(breakpoints@, fault.ip) == Some(*c)
                &&& final(state)@ == old(state)@
            },
            HandlerOutcome::Unwind { frames, report, transfer } => {
                &&& (locate(modules@, fault.ip) is None ==> frames@.len() == 0)
                &&& line_views(report@) == report_lines(frames@)
                &&& transfer == old(state)@.transfer(signum)
                &&& final(state)@ == old(state)@.unwound(fault)
            },
        },
{
    let kind = fault_signal_of(signum);
    handle_classified_fault(state, breakpoints, modules, kind, signum, fault, read_frames)
}

} // verus!
