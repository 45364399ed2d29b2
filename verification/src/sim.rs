//! A simulated debuggee: an in-process implementation of the tracing
//! capability over a plain memory log, a register bank and a script of
//! stop events. It lets the breakpoint and execution-control logic run —
//! and be observed — without a kernel, which is also how the engine is
//! exercised by the test suite.

use vstd::prelude::*;

use crate::register::RegisterBank;
use crate::trace::{PtraceOps, TraceError, WaitStatus};

verus! {

/// What one resumption of the simulated debuggee does: where its
/// instruction pointer ends up and how the following wait reports it.
#[derive(Debug, Clone, Copy, PartialEq, Eq, Structural)]
pub struct SimEvent {
    pub rip: u64,
    pub status: WaitStatus,
}

/// The write log read as a map; a later write to an address shadows an
/// earlier one.
pub open spec fn log_map(s: Seq<(u64, u64)>) -> Map<u64, u64>
    decreases s.len(),
{
    if s.len() == 0 {
        Map::empty()
    } else {
        log_map(s.drop_last()).insert(s.last().0, s.last().1)
    }
}

/// A debuggee simulated in the debugger's own process.
///
/// Its memory is the words mapped so far; reads and writes outside them
/// fail as a kernel peek or poke of an unmapped address would. Each `step`
/// or `cont` consumes the next scripted event; an exhausted script ends
/// the debuggee.
pub struct SimTracer {
    mem_log: Vec<(u64, u64)>,
    bank: RegisterBank,
    script: Vec<SimEvent>,
    pending: WaitStatus,
    is_alive: bool,
}

impl SimTracer {
    /// A stopped, living debuggee with the given registers and no memory
    /// mapped yet.
    pub fn new(bank: RegisterBank) -> (t: SimTracer)
        ensures
            t.mem() == Map::<u64, u64>::empty(),
            t.regs() == bank,
            t.alive(),
    {
        SimTracer {
            mem_log: Vec::new(),
            bank,
            script: Vec::new(),
            pending: WaitStatus::Stopped,
            is_alive: true,
        }
    }

    /// Maps (or overwrites) one word of simulated debuggee memory.
    pub fn map_word(&mut self, addr: u64, word: u64)
        ensures
            final(self).mem() == old(self).mem().insert(addr, word),
            final(self).regs() == old(self).regs(),
            final(self).alive() == old(self).alive(),
    {
        self.mem_log.push((addr, word));
        proof {
            assert(self.mem_log@.drop_last() =~= old(self).mem_log@);
        }
    }

    /// Appends the event the next resumption will play; events run in the
    /// order they were pushed.
    pub fn push_event(&mut self, rip: u64, status: WaitStatus)
        ensures
            final(self).mem() == old(self).mem(),
            final(self).regs() == old(self).regs(),
            final(self).alive() == old(self).alive(),
    {
        // The script is popped from the back, so keep it reversed.
        self.script.insert(0, SimEvent { rip, status });
    }

    fn lookup(&self, addr: u64) -> (r: Option<u64>)
        ensures
            match r {
                Some(w) => self.mem().contains_key(addr) && w == self.mem()[addr],
                None => !self.mem().contains_key(addr),
            },
    {
        let n = self.mem_log.len();
        let mut i: usize = n;
        proof {
            assert(self.mem_log@.subrange(0, n as int) =~= self.mem_log@);
        }
        while i > 0
            invariant
                i <= n,
                n == self.mem_log@.len(),
                log_map(self.mem_log@).contains_key(addr) == log_map(
                    self.mem_log@.subrange(0, i as int),
                ).contains_key(addr),
                log_map(self.mem_log@).contains_key(addr) ==> log_map(self.mem_log@)[addr]
                    == log_map(self.mem_log@.subrange(0, i as int))[addr],
            decreases i,
        {
            let ghost pre = self.mem_log@.subrange(0, i as int);
            proof {
                assert(pre.drop_last() =~= self.mem_log@.subrange(0, i - 1));
                assert(pre.last() == self.mem_log@[i - 1]);
            }
            let (a, w) = self.mem_log[i - 1];
            if a == addr {
                return Some(w);
            }
            i = i - 1;
        }
        proof {
            assert(self.mem_log@.subrange(0, 0).len() == 0);
        }
        None
    }

    fn play_event(&mut self) {
        match self.script.pop() {
            Some(ev) => {
                self.bank.rip = ev.rip;
                self.pending = ev.status;
                self.is_alive = match ev.status {
                    WaitStatus::Stopped => true,
                    WaitStatus::Exited => false,
                    WaitStatus::Signaled => false,
                };
            },
            None => {
                self.pending = WaitStatus::Exited;
                self.is_alive = false;
            },
        }
    }
}

impl PtraceOps for SimTracer {
    closed spec fn mem(&self) -> Map<u64, u64> {
        log_map(self.mem_log@)
    }

    closed spec fn regs(&self) -> RegisterBank {
        self.bank
    }

    closed spec fn alive(&self) -> bool {
        self.is_alive
    }

    fn read(&self, addr: u64) -> (r: Result<u64, TraceError>) {
        match self.lookup(addr) {
            Some(w) => Ok(w),
            None => Err(TraceError::Memory),
        }
    }

    fn write(&mut self, addr: u64, data: u64) -> (r: Result<(), TraceError>) {
        match self.lookup(addr) {
            Some(_) => {
                self.mem_log.push((addr, data));
                proof {
                    assert(self.mem_log@.drop_last() =~= old(self).mem_log@);
                }
                Ok(())
            },
            None => Err(TraceError::Memory),
        }
    }

    fn get_registers(&self) -> (r: Result<RegisterBank, TraceError>) {
        if self.is_alive {
            Ok(self.bank)
        } else {
            Err(TraceError::NoSuchProcess)
        }
    }

    fn set_registers(&mut self, bank: RegisterBank) -> (r: Result<(), TraceError>) {
        if self.is_alive {
            self.bank = bank;
            Ok(())
        } else {
            Err(TraceError::NoSuchProcess)
        }
    }

    fn step(&mut self) -> (r: Result<(), TraceError>) {
        self.play_event();
        Ok(())
    }

    fn cont(&mut self) -> (r: Result<(), TraceError>) {
        self.play_event();
        Ok(())
    }

    fn wait(&mut self) -> (r: Result<WaitStatus, TraceError>) {
        Ok(self.pending)
    }
}

} // verus!
