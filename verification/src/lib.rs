//! A minimal interactive debugger core for x86-64 Linux: software
//! breakpoints that splice a trap byte into debuggee memory, a register
//! file keyed by symbolic names and DWARF numbers, and the
//! execution-control sequence that resumes a debuggee stopped on a trap by
//! rewinding the program counter, restoring the displaced byte, stepping
//! once and re-arming the trap.
//!
//! Every kernel tracing operation is reached through the
//! [`trace::PtraceOps`] capability trait, so the engine never touches the
//! kernel itself. A real tracer lives with the process bootstrap outside
//! this library; [`sim::SimTracer`] implements the same capability over an
//! in-process simulated debuggee.

pub mod breakpoint;
pub mod debugger;
pub mod register;
pub mod sim;
pub mod text;
pub mod trace;
