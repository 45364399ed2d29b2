//! The tracing capability: the abstract set of kernel operations the
//! engine needs on a stopped debuggee. The engine never calls the kernel
//! itself; it goes through an implementation of [`PtraceOps`], so that the
//! whole execution-control logic can be verified — and exercised — against
//! a simulated debuggee as well as a real one.

use vstd::prelude::*;

use crate::register::RegisterBank;

verus! {

/// Why a tracing operation failed, mapped from the underlying syscall
/// error.
#[derive(Debug, Clone, Copy, PartialEq, Eq, Structural)]
pub enum TraceError {
    /// The tracer lacks permission over the debuggee.
    Permission,
    /// The debuggee no longer exists.
    NoSuchProcess,
    /// The address is not readable or writable debuggee memory.
    Memory,
    /// The debuggee is not in a state that admits the operation.
    State,
}

/// How the debuggee last changed state, as reported by a wait.
#[derive(Debug, Clone, Copy, PartialEq, Eq, Structural)]
pub enum WaitStatus {
    /// Stopped by a signal; the debuggee can be inspected and resumed.
    Stopped,
    /// Exited normally.
    Exited,
    /// Killed by a signal.
    Signaled,
}

/// The tracing primitives over one debuggee.
///
/// An implementation models the debuggee it controls by three ghost views:
/// the readable words of its memory, its register bank, and whether it is
/// still there to be inspected. Reads and writes are word-granular; a write
/// leaves the registers alone and a register assignment leaves memory
/// alone. Resuming the debuggee — `step` or `cont` — hands control to code
/// the tracer does not know, so nothing is promised about the state either
/// leaves behind; the engine must re-read whatever it needs afterwards.
pub trait PtraceOps: Sized {
    /// The words of debuggee memory, keyed by virtual address. An
    /// implementation that does not override this has an arbitrary,
    /// unspecified model.
    open spec fn mem(&self) -> Map<u64, u64> {
        vstd::pervasive::arbitrary()
    }

    /// The debuggee's register bank. An implementation that does not
    /// override this has an arbitrary, unspecified model.
    open spec fn regs(&self) -> RegisterBank {
        vstd::pervasive::arbitrary()
    }

    /// Whether the debuggee is still present and stopped for inspection.
    /// An implementation that does not override this has an arbitrary,
    /// unspecified model.
    open spec fn alive(&self) -> bool {
        vstd::pervasive::arbitrary()
    }

    /// Reads the machine word at `addr` from debuggee memory.
    fn read(&self, addr: u64) -> (r: Result<u64, TraceError>)
        ensures
            match r {
                Ok(w) => self.mem().contains_key(addr) && w == self.mem()[addr],
                Err(_) => !self.mem().contains_key(addr),
            },
    ;

    /// Writes a machine word at `addr` in debuggee memory.
    fn write(&mut self, addr: u64, data: u64) -> (r: Result<(), TraceError>)
        ensures
            match r {
                Ok(_) => {
                    &&& old(self).mem().contains_key(addr)
                    &&& final(self).mem() == old(self).mem().insert(addr, data)
                    &&& final(self).regs() == old(self).regs()
                    &&& final(self).alive() == old(self).alive()
                },
                Err(_) => !old(self).mem().contains_key(addr) && *final(self) == *old(self),
            },
    ;

    /// Reads the debuggee's whole register bank.
    fn get_registers(&self) -> (r: Result<RegisterBank, TraceError>)
        ensures
            match r {
                Ok(b) => self.alive() && b == self.regs(),
                Err(_) => !self.alive(),
            },
    ;

    /// Writes the debuggee's whole register bank.
    fn set_registers(&mut self, bank: RegisterBank) -> (r: Result<(), TraceError>)
        ensures
            match r {
                Ok(_) => {
                    &&& old(self).alive()
                    &&& final(self).regs() == bank
                    &&& final(self).mem() == old(self).mem()
                    &&& final(self).alive()
                },
                Err(_) => !old(self).alive() && *final(self) == *old(self),
            },
    ;

    /// Lets the debuggee execute one instruction.
    fn step(&mut self) -> (r: Result<(), TraceError>);

    /// Resumes the debuggee until its next stop.
    fn cont(&mut self) -> (r: Result<(), TraceError>);

    /// Blocks until the debuggee changes state and reports how.
    fn wait(&mut self) -> (r: Result<WaitStatus, TraceError>);
}

} // verus!
