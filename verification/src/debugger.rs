//! The debug engine: owns the breakpoint map and a tracing capability
//! over one debuggee, and carries out the execution-control routines —
//! breakpoint installation, continue with step-over-breakpoint, register
//! and memory access, and the dispatch of one command line.

use std::collections::HashMap;

use vstd::prelude::*;

use crate::breakpoint::{low_byte, with_trap, Breakpoint};
use crate::register::{
    get_register_from_name, get_register_value, register_descriptors, set_register_value,
    spec_name, spec_read, spec_reg_of_name, spec_table, spec_write, Reg, RegisterBank,
};
use crate::text::{
    eq_ignore_ascii_case, spec_dec, spec_hex16, spec_parse_hex_u64, spec_tokens, str_to_addr,
    str_to_reg_value, to_lower_seq, tokenize, u64_to_dec, u64_to_hex16,
};
use crate::trace::{PtraceOps, TraceError, WaitStatus};

verus! {

broadcast use vstd::std_specs::hash::group_hash_axioms;

/// How an engine operation driven by user input failed.
#[derive(Debug, Clone, Copy, PartialEq, Eq, Structural)]
pub enum DebugError {
    /// The argument could not be parsed or named no known register.
    Input,
    /// A tracing primitive failed; fatal to the session.
    Trace(TraceError),
}

/// The debug engine over one debuggee.
pub struct Debugger<T: PtraceOps> {
    prog_name: String,
    ops: T,
    breakpoints: HashMap<u64, Breakpoint>,
}

impl<T: PtraceOps> Debugger<T> {
    /// The breakpoint map as a mathematical map.
    pub closed spec fn bps(&self) -> Map<u64, Breakpoint> {
        self.breakpoints@
    }

    /// The tracing capability's view of the debuggee.
    pub closed spec fn ops_view(&self) -> T {
        self.ops
    }

    /// The program name, for display.
    pub closed spec fn prog(&self) -> Seq<char> {
        self.prog_name@
    }

    /// Every breakpoint sits in the map under its own address.
    pub open spec fn wf(&self) -> bool {
        forall|a: u64| self.bps().contains_key(a) ==> (#[trigger] self.bps()[a]).addr == a
    }

    /// An engine for the named program, with no breakpoints yet.
    pub fn new(prog_name: String, ops: T) -> (d: Debugger<T>)
        ensures
            d.wf(),
            d.bps() == Map::<u64, Breakpoint>::empty(),
            d.ops_view() == ops,
            d.prog() == prog_name@,
    {
        Debugger { prog_name, ops, breakpoints: HashMap::new() }
    }

    /// The name the engine was constructed with, for display.
    pub fn prog_name(&self) -> (n: &String)
        ensures
            n@ == self.prog(),
    {
        &self.prog_name
    }

    /// Grants the tests and the front end a look at the tracer.
    pub fn tracer(&self) -> (t: &T)
        ensures
            *t == self.ops_view(),
    {
        &self.ops
    }

    /// How many addresses hold a breakpoint.
    pub fn breakpoint_count(&self) -> (n: usize)
        ensures
            n == self.bps().len(),
    {
        self.breakpoints.len()
    }

    /// The breakpoint installed at `addr`, if any.
    pub fn breakpoint_at(&self, addr: u64) -> (r: Option<&Breakpoint>)
        ensures
            match r {
                Some(bp) => self.bps().contains_key(addr) && *bp == self.bps()[addr],
                None => !self.bps().contains_key(addr),
            },
    {
        self.breakpoints.get(&addr)
    }

    /// What installing a breakpoint at the mapped address `a` does. At an
    /// address already trapped nothing moves; anywhere else the word's low
    /// byte is saved into a fresh enabled breakpoint under `a` and the trap
    /// byte is spliced into the word on target.
    pub open spec fn installed(pre: Self, post: Self, a: u64) -> bool {
        if pre.bps().contains_key(a) && pre.bps()[a].enabled {
            post == pre
        } else {
            let w = pre.ops_view().mem()[a];
            &&& pre.ops_view().mem().contains_key(a)
            &&& post.bps() == pre.bps().insert(
                a,
                Breakpoint { addr: a, saved_data: low_byte(w) as u8, enabled: true },
            )
            &&& post.ops_view().mem() == pre.ops_view().mem().insert(a, with_trap(w))
            &&& post.ops_view().regs() == pre.ops_view().regs()
            &&& post.ops_view().alive() == pre.ops_view().alive()
            &&& post.prog() == pre.prog()
        }
    }

    /// Parses an address and installs a software breakpoint there: the
    /// word's low byte is saved and replaced by the trap byte, and the map
    /// gains (or keeps) an enabled breakpoint under that address. An
    /// address already trapped is left exactly as it is, so the saved
    /// original byte is never clobbered by the trap byte. Fails with
    /// `Input` on a malformed address and with `Trace` when the address is
    /// not mapped in the debuggee.
    pub fn set_breakpoint_at_address(&mut self, address: &str) -> (r: Result<(), DebugError>)
        requires
            old(self).wf(),
        ensures
            final(self).wf(),
            final(self).prog() == old(self).prog(),
            match r {
                Ok(_) => {
                    &&& spec_parse_hex_u64(address@) is Some
                    &&& Self::installed(*old(self), *final(self), spec_parse_hex_u64(address@)->0)
                },
                Err(DebugError::Input) => spec_parse_hex_u64(address@) is None && *final(self)
                    == *old(self),
                Err(DebugError::Trace(_)) => {
                    &&& spec_parse_hex_u64(address@) is Some
                    &&& !old(self).ops_view().mem().contains_key(spec_parse_hex_u64(address@)->0)
                    &&& *final(self) == *old(self)
                },
            },
    {
        let a = match str_to_addr(address) {
            Some(a) => a,
            None => {
                return Err(DebugError::Input);
            },
        };
        match self.breakpoints.get(&a) {
            Some(existing) => {
                if existing.enabled {
                    // The trap byte is already on target; re-enabling would
                    // capture it as the "original" byte and lose the real one.
                    return Ok(());
                }
            },
            None => {},
        }
        let mut bp = Breakpoint::new(a);
        match bp.enable(&mut self.ops) {
            Ok(_) => {
                self.breakpoints.insert(a, bp);
                proof {
                    assert(self.bps() == old(self).bps().insert(a, bp));
                    assert forall|a2: u64|
                        self.bps().contains_key(a2) implies (#[trigger] self.bps()[a2]).addr
                        == a2 by {
                        if a2 != a {
                            assert(old(self).bps().contains_key(a2));
                        }
                    }
                }
                Ok(())
            },
            Err(e) => Err(DebugError::Trace(e)),
        }
    }

    /// Whether the debuggee is stopped one byte past an installed, enabled
    /// breakpoint — the state a trap leaves behind.
    pub open spec fn at_enabled_breakpoint(&self) -> bool {
        let pc = self.ops_view().regs().rip;
        &&& pc >= 1
        &&& self.bps().contains_key((pc - 1) as u64)
        &&& self.bps()[(pc - 1) as u64].enabled
    }

    fn get_pc(&self) -> (r: Result<u64, TraceError>)
        ensures
            match r {
                Ok(pc) => self.ops_view().alive() && pc == self.ops_view().regs().rip,
                Err(_) => !self.ops_view().alive(),
            },
    {
        match self.ops.get_registers() {
            Ok(bank) => Ok(get_register_value(&bank, Reg::Rip)),
            Err(e) => Err(e),
        }
    }

    fn set_pc(&mut self, pc: u64) -> (r: Result<(), TraceError>)
        ensures
            final(self).bps() == old(self).bps(),
            final(self).prog() == old(self).prog(),
            match r {
                Ok(_) => {
                    &&& old(self).ops_view().alive()
                    &&& final(self).ops_view().regs() == spec_write(
                        old(self).ops_view().regs(),
                        Reg::Rip,
                        pc,
                    )
                    &&& final(self).ops_view().mem() == old(self).ops_view().mem()
                    &&& final(self).ops_view().alive()
                },
                Err(_) => !old(self).ops_view().alive() && *final(self) == *old(self),
            },
    {
        let mut bank = match self.ops.get_registers() {
            Ok(b) => b,
            Err(e) => {
                return Err(e);
            },
        };
        set_register_value(&mut bank, Reg::Rip, pc);
        self.ops.set_registers(bank)
    }

    /// The step-over-breakpoint sequence. A trap leaves the program
    /// counter one byte past the breakpoint address; if that address holds
    /// an enabled breakpoint, rewind the counter onto it, restore the
    /// displaced byte, let the debuggee execute the real instruction once,
    /// wait for the resulting stop, and re-install the trap. In any other
    /// state this does nothing. The breakpoint map keeps exactly its
    /// addresses throughout; on success every breakpoint is left with the
    /// enablement it had.
    fn step_over_breakpoint(&mut self) -> (r: Result<(), TraceError>)
        requires
            old(self).wf(),
        ensures
            final(self).wf(),
            final(self).prog() == old(self).prog(),
            final(self).bps().dom() == old(self).bps().dom(),
            r is Ok ==> forall|a: u64|
                old(self).bps().contains_key(a) ==> (#[trigger] final(self).bps()[a]).enabled
                    == old(self).bps()[a].enabled,
            old(self).ops_view().alive() && !old(self).at_enabled_breakpoint() ==> r is Ok
                && *final(self) == *old(self),
    {
        let pc = match self.get_pc() {
            Ok(pc) => pc,
            Err(e) => {
                return Err(e);
            },
        };
        if pc == 0 {
            return Ok(());
        }
        let candidate = pc - 1;
        match self.breakpoints.get(&candidate) {
            Some(found) => {
                if !found.enabled {
                    return Ok(());
                }
            },
            None => {
                return Ok(());
            },
        }
        let mut bp = match self.breakpoints.remove(&candidate) {
            Some(bp) => bp,
            // Unreachable: the lookup above found the key.
            None => {
                proof {
                    assert(false);
                }
                return Err(TraceError::State);
            },
        };
        let ghost removed = self.bps();
        proof {
            assert(removed == old(self).bps().remove(candidate));
            assert(bp == old(self).bps()[candidate]);
            assert(bp.addr == candidate);
        }
        let outcome = self.step_over_enabled(candidate, &mut bp);
        self.breakpoints.insert(candidate, bp);
        proof {
            assert(self.bps() == removed.insert(candidate, bp));
            assert(self.bps().dom() =~= old(self).bps().dom());
            assert forall|a2: u64|
                self.bps().contains_key(a2) implies (#[trigger] self.bps()[a2]).addr == a2 by {
                if a2 != candidate {
                    assert(old(self).bps().contains_key(a2));
                }
            }
        }
        outcome
    }

    /// The middle of the step-over sequence, once the breakpoint has been
    /// taken out of the map: rewind, uninstall, step, wait, re-install.
    /// On success the breakpoint is enabled again.
    fn step_over_enabled(&mut self, candidate: u64, bp: &mut Breakpoint) -> (r: Result<
        (),
        TraceError,
    >)
        requires
            old(bp).addr == candidate,
            old(bp).enabled,
        ensures
            final(self).bps() == old(self).bps(),
            final(self).prog() == old(self).prog(),
            final(bp).addr == candidate,
            r is Ok ==> final(bp).enabled,
    {
        match self.set_pc(candidate) {
            Ok(_) => {},
            Err(e) => {
                return Err(e);
            },
        }
        match bp.disable(&mut self.ops) {
            Ok(_) => {},
            Err(e) => {
                return Err(e);
            },
        }
        match self.ops.step() {
            Ok(_) => {},
            Err(e) => {
                return Err(e);
            },
        }
        match self.ops.wait() {
            Ok(_) => {},
            Err(e) => {
                return Err(e);
            },
        }
        bp.enable(&mut self.ops)
    }

    /// Resumes the debuggee: first the step-over-breakpoint sequence, then
    /// a continue, then the wait for the next stop. The breakpoint map
    /// keeps exactly its addresses; on success every breakpoint keeps its
    /// enablement, so a trap resumed over stays armed.
    pub fn continue_execution(&mut self) -> (r: Result<WaitStatus, TraceError>)
        requires
            old(self).wf(),
        ensures
            final(self).wf(),
            final(self).prog() == old(self).prog(),
            final(self).bps().dom() == old(self).bps().dom(),
            r is Ok ==> forall|a: u64|
                old(self).bps().contains_key(a) ==> (#[trigger] final(self).bps()[a]).enabled
                    == old(self).bps()[a].enabled,
    {
        match self.step_over_breakpoint() {
            Ok(_) => {},
            Err(e) => {
                return Err(e);
            },
        }
        match self.ops.cont() {
            Ok(_) => {},
            Err(e) => {
                return Err(e);
            },
        }
        self.ops.wait()
    }

    /// Reads the 64-bit word at a debuggee address.
    pub fn read_memory(&self, addr: u64) -> (r: Result<u64, TraceError>)
        ensures
            match r {
                Ok(w) => self.ops_view().mem().contains_key(addr) && w == self.ops_view().mem()[addr],
                Err(_) => !self.ops_view().mem().contains_key(addr),
            },
    {
        self.ops.read(addr)
    }

    /// Writes a 64-bit word at a debuggee address.
    pub fn write_memory(&mut self, addr: u64, word: u64) -> (r: Result<(), TraceError>)
        ensures
            final(self).bps() == old(self).bps(),
            final(self).prog() == old(self).prog(),
            match r {
                Ok(_) => {
                    &&& old(self).ops_view().mem().contains_key(addr)
                    &&& final(self).ops_view().mem() == old(self).ops_view().mem().insert(
                        addr,
                        word,
                    )
                    &&& final(self).ops_view().regs() == old(self).ops_view().regs()
                    &&& final(self).ops_view().alive() == old(self).ops_view().alive()
                },
                Err(_) => {
                    &&& !old(self).ops_view().mem().contains_key(addr)
                    &&& *final(self) == *old(self)
                },
            },
    {
        self.ops.write(addr, word)
    }

    /// Reads one register by name, matched case-insensitively.
    pub fn read_register(&self, name: &String) -> (r: Result<u64, DebugError>)
        ensures
            match r {
                Ok(v) => spec_reg_of_name(to_lower_seq(name@)) matches Some(reg)
                    && self.ops_view().alive() && v == spec_read(self.ops_view().regs(), reg),
                Err(DebugError::Input) => spec_reg_of_name(to_lower_seq(name@)) is None,
                Err(DebugError::Trace(_)) => spec_reg_of_name(to_lower_seq(name@)) is Some
                    && !self.ops_view().alive(),
            },
    {
        let reg = match get_register_from_name(name) {
            Some(reg) => reg,
            None => {
                return Err(DebugError::Input);
            },
        };
        match self.ops.get_registers() {
            Ok(bank) => Ok(get_register_value(&bank, reg)),
            Err(e) => Err(DebugError::Trace(e)),
        }
    }

    /// Writes one register by name, matched case-insensitively.
    pub fn write_register(&mut self, name: &String, value: u64) -> (r: Result<(), DebugError>)
        ensures
            final(self).bps() == old(self).bps(),
            final(self).prog() == old(self).prog(),
            match r {
                Ok(_) => spec_reg_of_name(to_lower_seq(name@)) matches Some(reg) && {
                    &&& old(self).ops_view().alive()
                    &&& final(self).ops_view().regs() == spec_write(
                        old(self).ops_view().regs(),
                        reg,
                        value,
                    )
                    &&& final(self).ops_view().mem() == old(self).ops_view().mem()
                    &&& final(self).ops_view().alive()
                },
                Err(DebugError::Input) => {
                    &&& spec_reg_of_name(to_lower_seq(name@)) is None
                    &&& *final(self) == *old(self)
                },
                Err(DebugError::Trace(_)) => {
                    &&& spec_reg_of_name(to_lower_seq(name@)) is Some
                    &&& !old(self).ops_view().alive()
                    &&& *final(self) == *old(self)
                },
            },
    {
        let reg = match get_register_from_name(name) {
            Some(reg) => reg,
            None => {
                return Err(DebugError::Input);
            },
        };
        let mut bank = match self.ops.get_registers() {
            Ok(b) => b,
            Err(e) => {
                return Err(DebugError::Trace(e));
            },
        };
        set_register_value(&mut bank, reg, value);
        match self.ops.set_registers(bank) {
            Ok(_) => Ok(()),
            Err(e) => Err(DebugError::Trace(e)),
        }
    }

    /// Formats every register of the debuggee, one line each, in the
    /// descriptor table's order: `<name> 0x<16 hex digits>`.
    pub fn dump_registers(&self) -> (r: Result<Vec<String>, TraceError>)
        ensures
            match r {
                Ok(lines) => {
                    &&& self.ops_view().alive()
                    &&& lines@.len() == spec_table().len()
                    &&& forall|i: int|
                        0 <= i < lines@.len() ==> (#[trigger] lines@[i])@ == spec_dump_line(
                            i,
                            self.ops_view().regs(),
                        )
                },
                Err(_) => !self.ops_view().alive(),
            },
    {
        let bank = match self.ops.get_registers() {
            Ok(b) => b,
            Err(e) => {
                return Err(e);
            },
        };
        let descs = register_descriptors();
        let mut lines: Vec<String> = Vec::new();
        let mut i: usize = 0;
        while i < descs.len()
            invariant
                i <= descs@.len(),
                lines@.len() == i,
                bank == self.ops_view().regs(),
                descs@.len() == spec_table().len(),
                forall|j: int|
                    0 <= j < descs@.len() ==> {
                        let d = #[trigger] descs@[j];
                        &&& d.r == spec_table()[j]
                        &&& d.name@ == spec_name(spec_table()[j])
                    },
                forall|j: int|
                    0 <= j < i ==> (#[trigger] lines@[j])@ == spec_dump_line(j, bank),
            decreases descs@.len() - i,
        {
            let d = descs[i];
            let mut line = d.name.to_owned();
            line.append(" 0x");
            let hx = u64_to_hex16(get_register_value(&bank, d.r));
            line.append(hx.as_str());
            lines.push(line);
            i += 1;
        }
        Ok(lines)
    }
}

/// What the front end hands back for one command line.
#[derive(Debug)]
pub enum CommandResult {
    /// The command completed; these lines go to standard output.
    Output(Vec<String>),
    /// The input was rejected; the message goes to standard error and the
    /// prompt returns.
    UserError(String),
    /// The user asked to end the session.
    Exit,
    /// A tracing primitive failed; the session must end.
    Fatal(TraceError),
}

/// The help text shown for an empty or unrecognized command.
pub open spec fn spec_help() -> Seq<char> {
    "\nNo command or invalid command were provided\nTry using one of the following:\n1. continue\n2. break 0xADDRESS\n3. memory [read/write] 0xADDRESS\n4. register [dump/read/write] [0xADDRESS]\n5. exit\n"@
}

/// The help text shown for an empty or unrecognized command.
pub fn help_text() -> (s: &'static str)
    ensures
        s@ == spec_help(),
{
    "\nNo command or invalid command were provided\nTry using one of the following:\n1. continue\n2. break 0xADDRESS\n3. memory [read/write] 0xADDRESS\n4. register [dump/read/write] [0xADDRESS]\n5. exit\n"
}

impl<T: PtraceOps> Debugger<T> {
    /// The breakpoint map keeps exactly its addresses, each under itself.
    pub open spec fn same_bp_addrs(pre: Self, post: Self) -> bool {
        &&& post.bps().dom() == pre.bps().dom()
        &&& post.prog() == pre.prog()
        &&& forall|a: u64| pre.bps().contains_key(a) ==> (#[trigger] post.bps()[a]).addr == a
    }

    /// Every breakpoint keeps the enablement it had.
    pub open spec fn same_bp_enablement(pre: Self, post: Self) -> bool {
        forall|a: u64|
            pre.bps().contains_key(a) ==> (#[trigger] post.bps()[a]).enabled
                == pre.bps()[a].enabled
    }

    /// The input was rejected with exactly this message and nothing moved.
    pub open spec fn rejected(pre: Self, post: Self, r: CommandResult, msg: Seq<char>) -> bool {
        &&& post == pre
        &&& r matches CommandResult::UserError(m) && m@ == msg
    }

    /// What a `continue` command does: the step-over sequence followed by a
    /// resume and a wait. The breakpoint map keeps its addresses, and on
    /// success every trap stays armed as it was; nothing is printed unless
    /// the wait reported that the debuggee is gone.
    pub open spec fn handled_continue(pre: Self, post: Self, r: CommandResult) -> bool {
        match r {
            CommandResult::Output(lines) => {
                &&& lines@.len() == 0 || (lines@.len() == 1 && (lines@[0]@
                    == "The debuggee has exited"@ || lines@[0]@ == "The debuggee was killed"@))
                &&& Self::same_bp_addrs(pre, post)
                &&& Self::same_bp_enablement(pre, post)
            },
            CommandResult::Fatal(_) => Self::same_bp_addrs(pre, post),
            _ => false,
        }
    }

    /// What a `break` command does with these tokens.
    pub open spec fn handled_break(
        pre: Self,
        post: Self,
        toks: Seq<Seq<char>>,
        r: CommandResult,
    ) -> bool {
        if toks.len() < 2 {
            Self::rejected(pre, post, r, "No address provided for the breakpoint"@)
        } else {
            match spec_parse_hex_u64(toks[1]) {
                None => Self::rejected(pre, post, r, "Failed to parse address"@),
                Some(a) => match r {
                    CommandResult::Output(lines) => lines@.len() == 0 && Self::installed(
                        pre,
                        post,
                        a,
                    ),
                    CommandResult::Fatal(_) => !pre.ops_view().mem().contains_key(a) && post
                        == pre,
                    _ => false,
                },
            }
        }
    }

    /// What a `register` command does with these tokens.
    pub open spec fn handled_register(
        pre: Self,
        post: Self,
        toks: Seq<Seq<char>>,
        r: CommandResult,
    ) -> bool {
        if toks.len() < 2 {
            Self::rejected(
                pre,
                post,
                r,
                "You cannot call the register command without any arguments"@,
            )
        } else {
            let sub = to_lower_seq(toks[1]);
            if sub == "dump"@ {
                match r {
                    CommandResult::Output(lines) => {
                        &&& post == pre
                        &&& pre.ops_view().alive()
                        &&& lines@.len() == spec_table().len()
                        &&& forall|i: int|
                            0 <= i < lines@.len() ==> (#[trigger] lines@[i])@ == spec_dump_line(
                                i,
                                pre.ops_view().regs(),
                            )
                    },
                    CommandResult::Fatal(_) => post == pre && !pre.ops_view().alive(),
                    _ => false,
                }
            } else if sub == "read"@ {
                if toks.len() < 3 {
                    Self::rejected(pre, post, r, "This command requires a register name"@)
                } else {
                    match spec_reg_of_name(to_lower_seq(toks[2])) {
                        None => Self::rejected(
                            pre,
                            post,
                            r,
                            "This register doesn't exist in the table"@,
                        ),
                        Some(reg) => match r {
                            CommandResult::Output(lines) => {
                                &&& post == pre
                                &&& pre.ops_view().alive()
                                &&& lines@.len() == 1
                                &&& lines@[0]@ == toks[2] + " -> "@ + spec_dec(
                                    spec_read(pre.ops_view().regs(), reg) as nat,
                                )
                            },
                            CommandResult::Fatal(_) => post == pre && !pre.ops_view().alive(),
                            _ => false,
                        },
                    }
                }
            } else if sub == "write"@ {
                if toks.len() < 3 {
                    Self::rejected(pre, post, r, "This command requires a register name"@)
                } else if toks.len() < 4 {
                    Self::rejected(
                        pre,
                        post,
                        r,
                        "This command requires a value that will be set to the register"@,
                    )
                } else {
                    match spec_reg_of_name(to_lower_seq(toks[2])) {
                        None => Self::rejected(
                            pre,
                            post,
                            r,
                            "This register doesn't exist in the table"@,
                        ),
                        Some(reg) => match spec_parse_hex_u64(toks[3]) {
                            None => Self::rejected(
                                pre,
                                post,
                                r,
                                "Failed to parse the string to an u64 value"@,
                            ),
                            Some(v) => match r {
                                CommandResult::Output(lines) => {
                                    &&& lines@.len() == 0
                                    &&& pre.ops_view().alive()
                                    &&& post.ops_view().regs() == spec_write(
                                        pre.ops_view().regs(),
                                        reg,
                                        v,
                                    )
                                    &&& post.ops_view().mem() == pre.ops_view().mem()
                                    &&& post.ops_view().alive()
                                    &&& post.bps() == pre.bps()
                                    &&& post.prog() == pre.prog()
                                },
                                CommandResult::Fatal(_) => post == pre && !pre.ops_view().alive(),
                                _ => false,
                            },
                        },
                    }
                }
            } else {
                Self::rejected(pre, post, r, spec_help())
            }
        }
    }

    /// What a `memory` command does with these tokens; the value of a write
    /// is parsed before its address.
    pub open spec fn handled_memory(
        pre: Self,
        post: Self,
        toks: Seq<Seq<char>>,
        r: CommandResult,
    ) -> bool {
        if toks.len() < 2 {
            Self::rejected(pre, post, r, "Command memory cannot be called without any arguments"@)
        } else if toks.len() < 3 {
            Self::rejected(pre, post, r, "You should precise the address you want to manipulate"@)
        } else {
            let sub = to_lower_seq(toks[1]);
            if sub == "read"@ {
                match spec_parse_hex_u64(toks[2]) {
                    None => Self::rejected(pre, post, r, "Failed to parse address"@),
                    Some(a) => match r {
                        CommandResult::Output(lines) => {
                            &&& post == pre
                            &&& pre.ops_view().mem().contains_key(a)
                            &&& lines@.len() == 1
                            &&& lines@[0]@ == toks[2] + " --> "@ + spec_dec(
                                pre.ops_view().mem()[a] as nat,
                            )
                        },
                        CommandResult::Fatal(_) => post == pre && !pre.ops_view().mem(
                        ).contains_key(a),
                        _ => false,
                    },
                }
            } else if sub == "write"@ {
                if toks.len() < 4 {
                    Self::rejected(
                        pre,
                        post,
                        r,
                        "You should precise the value that will be set to the register"@,
                    )
                } else {
                    match spec_parse_hex_u64(toks[3]) {
                        None => Self::rejected(pre, post, r, "Failed to parse address"@),
                        Some(v) => match spec_parse_hex_u64(toks[2]) {
                            None => Self::rejected(pre, post, r, "Failed to parse address"@),
                            Some(a) => match r {
                                CommandResult::Output(lines) => {
                                    &&& lines@.len() == 0
                                    &&& pre.ops_view().mem().contains_key(a)
                                    &&& post.ops_view().mem() == pre.ops_view().mem().insert(a, v)
                                    &&& post.ops_view().regs() == pre.ops_view().regs()
                                    &&& post.ops_view().alive() == pre.ops_view().alive()
                                    &&& post.bps() == pre.bps()
                                    &&& post.prog() == pre.prog()
                                },
                                CommandResult::Fatal(_) => post == pre && !pre.ops_view().mem(
                                ).contains_key(a),
                                _ => false,
                            },
                        },
                    }
                }
            } else {
                Self::rejected(pre, post, r, spec_help())
            }
        }
    }

    /// The whole effect of one command line on the engine: which command
    /// the first field names, what the remaining fields mean to it, what it
    /// prints, and exactly how the breakpoint map, the debuggee and the
    /// session fare — including that an empty or unknown command changes
    /// nothing.
    pub open spec fn handled(pre: Self, post: Self, line: Seq<char>, r: CommandResult) -> bool {
        let toks = spec_tokens(line);
        if toks.len() == 0 {
            Self::rejected(pre, post, r, spec_help())
        } else {
            let cmd = to_lower_seq(toks[0]);
            if cmd == "continue"@ {
                Self::handled_continue(pre, post, r)
            } else if cmd == "exit"@ {
                post == pre && r is Exit
            } else if cmd == "break"@ {
                Self::handled_break(pre, post, toks, r)
            } else if cmd == "register"@ {
                Self::handled_register(pre, post, toks, r)
            } else if cmd == "memory"@ {
                Self::handled_memory(pre, post, toks, r)
            } else {
                Self::rejected(pre, post, r, spec_help())
            }
        }
    }

    /// Tokenizes one command line and carries it out on the engine.
    pub fn handle_command(&mut self, command: &String) -> (r: CommandResult)
        requires
            old(self).wf(),
        ensures
            final(self).wf(),
            Self::handled(*old(self), *final(self), command@, r),
            // The breakpoint map never shrinks: no command removes an address.
            forall|a: u64|
                old(self).bps().contains_key(a) ==> final(self).bps().contains_key(a),
    {
        let toks = tokenize(command.as_str());
        let ghost stoks = spec_tokens(command@);
        proof {
            assert(toks@.map_values(|t: String| t@) == stoks);
            assert(toks@.len() == stoks.len());
            assert forall|i: int| 0 <= i < toks@.len() implies (#[trigger] toks@[i])@
                == stoks[i] by {
                assert(toks@.map_values(|t: String| t@)[i] == toks@[i]@);
            }
        }
        if toks.len() == 0 {
            return CommandResult::UserError(help_text().to_owned());
        }
        if eq_ignore_ascii_case(toks[0].as_str(), "continue") {
            match self.continue_execution() {
                Ok(WaitStatus::Stopped) => CommandResult::Output(Vec::new()),
                Ok(WaitStatus::Exited) => {
                    let mut lines: Vec<String> = Vec::new();
                    lines.push("The debuggee has exited".to_owned());
                    CommandResult::Output(lines)
                },
                Ok(WaitStatus::Signaled) => {
                    let mut lines: Vec<String> = Vec::new();
                    lines.push("The debuggee was killed".to_owned());
                    CommandResult::Output(lines)
                },
                Err(e) => CommandResult::Fatal(e),
            }
        } else if eq_ignore_ascii_case(toks[0].as_str(), "exit") {
            CommandResult::Exit
        } else if eq_ignore_ascii_case(toks[0].as_str(), "break") {
            if toks.len() < 2 {
                return CommandResult::UserError(
                    "No address provided for the breakpoint".to_owned(),
                );
            }
            match self.set_breakpoint_at_address(toks[1].as_str()) {
                Ok(_) => CommandResult::Output(Vec::new()),
                Err(DebugError::Input) => CommandResult::UserError(
                    "Failed to parse address".to_owned(),
                ),
                Err(DebugError::Trace(e)) => CommandResult::Fatal(e),
            }
        } else if eq_ignore_ascii_case(toks[0].as_str(), "register") {
            self.handle_register(&toks)
        } else if eq_ignore_ascii_case(toks[0].as_str(), "memory") {
            self.handle_memory(&toks)
        } else {
            CommandResult::UserError(help_text().to_owned())
        }
    }

    /// Carries out a `register` command on its tokens.
    fn handle_register(&mut self, toks: &Vec<String>) -> (r: CommandResult)
        requires
            old(self).wf(),
            toks@.len() >= 1,
        ensures
            final(self).wf(),
            Self::handled_register(
                *old(self),
                *final(self),
                toks@.map_values(|t: String| t@),
                r,
            ),
    {
        let ghost stoks = toks@.map_values(|t: String| t@);
        proof {
            assert forall|i: int| 0 <= i < toks@.len() implies (#[trigger] toks@[i])@
                == stoks[i] by {
                assert(stoks[i] == toks@[i]@);
            }
        }
        if toks.len() < 2 {
            return CommandResult::UserError(
                "You cannot call the register command without any arguments".to_owned(),
            );
        }
        if eq_ignore_ascii_case(toks[1].as_str(), "dump") {
            match self.dump_registers() {
                Ok(lines) => CommandResult::Output(lines),
                Err(e) => CommandResult::Fatal(e),
            }
        } else if eq_ignore_ascii_case(toks[1].as_str(), "read") {
            if toks.len() < 3 {
                return CommandResult::UserError(
                    "This command requires a register name".to_owned(),
                );
            }
            match self.read_register(&toks[2]) {
                Ok(v) => {
                    let mut line = toks[2].clone();
                    line.append(" -> ");
                    let dec = u64_to_dec(v);
                    line.append(dec.as_str());
                    let mut lines: Vec<String> = Vec::new();
                    lines.push(line);
                    CommandResult::Output(lines)
                },
                Err(DebugError::Input) => CommandResult::UserError(
                    "This register doesn't exist in the table".to_owned(),
                ),
                Err(DebugError::Trace(e)) => CommandResult::Fatal(e),
            }
        } else if eq_ignore_ascii_case(toks[1].as_str(), "write") {
            if toks.len() < 3 {
                return CommandResult::UserError(
                    "This command requires a register name".to_owned(),
                );
            }
            if toks.len() < 4 {
                return CommandResult::UserError(
                    "This command requires a value that will be set to the register".to_owned(),
                );
            }
            match get_register_from_name(&toks[2]) {
                Some(_) => {},
                None => {
                    return CommandResult::UserError(
                        "This register doesn't exist in the table".to_owned(),
                    );
                },
            }
            let v = match str_to_reg_value(toks[3].as_str()) {
                Some(v) => v,
                None => {
                    return CommandResult::UserError(
                        "Failed to parse the string to an u64 value".to_owned(),
                    );
                },
            };
            match self.write_register(&toks[2], v) {
                Ok(_) => CommandResult::Output(Vec::new()),
                Err(DebugError::Input) => CommandResult::UserError(
                    "This register doesn't exist in the table".to_owned(),
                ),
                Err(DebugError::Trace(e)) => CommandResult::Fatal(e),
            }
        } else {
            CommandResult::UserError(help_text().to_owned())
        }
    }

    /// Carries out a `memory` command on its tokens.
    fn handle_memory(&mut self, toks: &Vec<String>) -> (r: CommandResult)
        requires
            old(self).wf(),
            toks@.len() >= 1,
        ensures
            final(self).wf(),
            Self::handled_memory(*old(self), *final(self), toks@.map_values(|t: String| t@), r),
    {
        let ghost stoks = toks@.map_values(|t: String| t@);
        proof {
            assert forall|i: int| 0 <= i < toks@.len() implies (#[trigger] toks@[i])@
                == stoks[i] by {
                assert(stoks[i] == toks@[i]@);
            }
        }
        if toks.len() < 2 {
            return CommandResult::UserError(
                "Command memory cannot be called without any arguments".to_owned(),
            );
        }
        if toks.len() < 3 {
            return CommandResult::UserError(
                "You should precise the address you want to manipulate".to_owned(),
            );
        }
        if eq_ignore_ascii_case(toks[1].as_str(), "read") {
            let a = match str_to_addr(toks[2].as_str()) {
                Some(a) => a,
                None => {
                    return CommandResult::UserError("Failed to parse address".to_owned());
                },
            };
            match self.read_memory(a) {
                Ok(w) => {
                    let mut line = toks[2].clone();
                    line.append(" --> ");
                    let dec = u64_to_dec(w);
                    line.append(dec.as_str());
                    let mut lines: Vec<String> = Vec::new();
                    lines.push(line);
                    CommandResult::Output(lines)
                },
                Err(e) => CommandResult::Fatal(e),
            }
        } else if eq_ignore_ascii_case(toks[1].as_str(), "write") {
            if toks.len() < 4 {
                return CommandResult::UserError(
                    "You should precise the value that will be set to the register".to_owned(),
                );
            }
            let v = match str_to_addr(toks[3].as_str()) {
                Some(v) => v,
                None => {
                    return CommandResult::UserError("Failed to parse address".to_owned());
                },
            };
            let a = match str_to_addr(toks[2].as_str()) {
                Some(a) => a,
                None => {
                    return CommandResult::UserError("Failed to parse address".to_owned());
                },
            };
            match self.write_memory(a, v) {
                Ok(_) => CommandResult::Output(Vec::new()),
                Err(e) => CommandResult::Fatal(e),
            }
        } else {
            CommandResult::UserError(help_text().to_owned())
        }
    }
}

/// One line of the register dump: the canonical name, a space, and the
/// sixteen-digit hexadecimal value of the register at that table position.
pub open spec fn spec_dump_line(i: int, b: RegisterBank) -> Seq<char> {
    spec_name(spec_table()[i]) + " 0x"@ + spec_hex16(spec_read(b, spec_table()[i]))
}

/// Installing a breakpoint at an address already present replaces that
/// entry and adds no other; the map's size never decreases, and grows only
/// at a fresh address.
pub proof fn lemma_breakpoint_map_key(m: Map<u64, Breakpoint>, a: u64, bp: Breakpoint)
    requires
        m.dom().finite(),
    ensures
        m.insert(a, bp).dom() == m.dom().insert(a),
        m.insert(a, bp)[a] == bp,
        m.insert(a, bp).len() >= m.len(),
        m.contains_key(a) ==> m.insert(a, bp).len() == m.len(),
        !m.contains_key(a) ==> m.insert(a, bp).len() == m.len() + 1,
{
    assert(m.insert(a, bp).dom() =~= m.dom().insert(a));
    if m.contains_key(a) {
        assert(m.dom().insert(a) =~= m.dom());
    }
}

} // verus!
