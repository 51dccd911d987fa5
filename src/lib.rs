//! Fault interception core of a WebAssembly runtime: the decisions taken when
//! natively compiled guest code faults or throws, stated and proved.
//!
//! The platform mechanics (signal installation, saving and resuming execution
//! points, reading raw signal contexts) stay with the embedding program; this
//! crate holds what those mechanics decide on.
pub mod backtrace;
pub mod breakpoints;
pub mod recovery;
pub mod registers;
pub mod report;
pub mod signals;

pub use backtrace::{locate_module, render_report, walk_stack, CodeRange, LogicalFrame, ReportLine, Style};
pub use breakpoints::{BreakpointStack, BreakpointTable};
pub use recovery::{
    do_unwind, throw, trigger_trap, CallProtError, RecoveryState, Scope, Transfer, NO_SCOPE, THROW_CODE,
};
pub use registers::{FaultInfo, GeneralRegisters, Register, REGISTER_COUNT};
pub use report::{decimal_string, format_optional_u64_sequence, join_strings};
pub use signals::{handle_classified_fault, handle_fault, intercepted_signals, FaultSignal, HandlerOutcome};
