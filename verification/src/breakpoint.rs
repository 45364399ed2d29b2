//! A single software breakpoint: one trap byte spliced into the low-order
//! byte of the word at an absolute debuggee address, with the displaced
//! byte saved so that disabling restores the word exactly.

use vstd::prelude::*;

use crate::trace::{PtraceOps, TraceError};

verus! {

/// The low-order byte of a machine word.
pub open spec fn low_byte(w: u64) -> u64 {
    w & 0xff
}

/// `w` with its low-order byte replaced by the trap opcode `0xcc`.
pub open spec fn with_trap(w: u64) -> u64 {
    (w & !0xffu64) | 0xcc
}

/// `w` with its low-order byte replaced by `b`.
pub open spec fn with_low_byte(w: u64, b: u64) -> u64 {
    (w & !0xffu64) | (b & 0xff)
}

/// A software breakpoint at one absolute virtual address.
#[derive(Debug, Clone, Copy, PartialEq, Eq, Structural)]
pub struct Breakpoint {
    /// The absolute address of the trapped instruction byte.
    pub addr: u64,
    /// The instruction byte the trap displaced; meaningful once enabled.
    pub saved_data: u8,
    /// Whether the trap byte is currently installed.
    pub enabled: bool,
}

impl Breakpoint {
    /// A breakpoint bound to `addr`, not yet installed.
    pub fn new(addr: u64) -> (bp: Breakpoint)
        ensures
            bp.addr == addr,
            bp.saved_data == 0,
            !bp.enabled,
    {
        Breakpoint { addr, saved_data: 0, enabled: false }
    }

    /// Installs the trap: saves the low-order byte of the word at the
    /// breakpoint address and writes the word back with the trap byte
    /// spliced in. The seven high-order bytes are preserved. Fails exactly
    /// when the address is not mapped in the debuggee, leaving everything
    /// unchanged.
    pub fn enable<T: PtraceOps>(&mut self, ops: &mut T) -> (r: Result<(), TraceError>)
        ensures
            final(self).addr == old(self).addr,
            match r {
                Ok(_) => ({
                    let w = old(ops).mem()[old(self).addr];
                    &&& old(ops).mem().contains_key(old(self).addr)
                    &&& final(self).saved_data as u64 == low_byte(w)
                    &&& final(self).enabled
                    &&& final(ops).mem() == old(ops).mem().insert(old(self).addr, with_trap(w))
                    &&& final(ops).regs() == old(ops).regs()
                    &&& final(ops).alive() == old(ops).alive()
                }),
                Err(_) => {
                    &&& !old(ops).mem().contains_key(old(self).addr)
                    &&& *final(self) == *old(self)
                    &&& *final(ops) == *old(ops)
                },
            },
    {
        let word = match ops.read(self.addr) {
            Ok(w) => w,
            Err(e) => {
                return Err(e);
            },
        };
        proof {
            assert(word & 0xff < 256) by (bit_vector);
        }
        self.saved_data = (word & 0xff) as u8;
        let patched = (word & !0xffu64) | 0xcc;
        match ops.write(self.addr, patched) {
            Ok(_) => {
                self.enabled = true;
                Ok(())
            },
            Err(e) => Err(e),
        }
    }

    /// Uninstalls the trap: splices the saved byte back into the low-order
    /// byte of the word at the breakpoint address. Fails exactly when the
    /// address is no longer mapped, leaving everything unchanged.
    pub fn disable<T: PtraceOps>(&mut self, ops: &mut T) -> (r: Result<(), TraceError>)
        ensures
            final(self).addr == old(self).addr,
            final(self).saved_data == old(self).saved_data,
            match r {
                Ok(_) => ({
                    let w = old(ops).mem()[old(self).addr];
                    &&& old(ops).mem().contains_key(old(self).addr)
                    &&& !final(self).enabled
                    &&& final(ops).mem() == old(ops).mem().insert(
                        old(self).addr,
                        with_low_byte(w, old(self).saved_data as u64),
                    )
                    &&& final(ops).regs() == old(ops).regs()
                    &&& final(ops).alive() == old(ops).alive()
                }),
                Err(_) => {
                    &&& !old(ops).mem().contains_key(old(self).addr)
                    &&& *final(self) == *old(self)
                    &&& *final(ops) == *old(ops)
                },
            },
    {
        let word = match ops.read(self.addr) {
            Ok(w) => w,
            Err(e) => {
                return Err(e);
            },
        };
        let restored = (word & !0xffu64) | (self.saved_data as u64);
        proof {
            let b = self.saved_data as u64;
            assert(b < 256 ==> (word & !0xffu64) | b == (word & !0xffu64) | (b & 0xff))
                by (bit_vector);
        }
        match ops.write(self.addr, restored) {
            Ok(_) => {
                self.enabled = false;
                Ok(())
            },
            Err(e) => Err(e),
        }
    }
}

/// Immediately after an enable, the byte at the breakpoint address is the
/// trap opcode and the seven high-order bytes of the word are unchanged.
pub proof fn lemma_trap_placement(w: u64)
    ensures
        low_byte(with_trap(w)) == 0xcc,
        with_trap(w) >> 8 == w >> 8,
{
    assert(((w & !0xffu64) | 0xcc) & 0xff == 0xcc) by (bit_vector);
    assert(((w & !0xffu64) | 0xcc) >> 8 == w >> 8) by (bit_vector);
}

/// Splicing a word's own low-order byte back over the trap gives the word
/// back exactly.
pub proof fn lemma_byte_preservation(w: u64)
    ensures
        with_low_byte(with_trap(w), low_byte(w)) == w,
{
    assert((((w & !0xffu64) | 0xcc) & !0xffu64) | ((w & 0xff) & 0xff) == w) by (bit_vector);
}

/// Enabling and then disabling a breakpoint leaves the debuggee's memory
/// exactly as it was: the trapped word is restored and no other word was
/// ever touched.
pub proof fn lemma_enable_disable_restores(m: Map<u64, u64>, a: u64)
    requires
        m.contains_key(a),
    ensures
        ({
            let after_enable = m.insert(a, with_trap(m[a]));
            after_enable.insert(a, with_low_byte(after_enable[a], low_byte(m[a]))) == m
        }),
{
    lemma_byte_preservation(m[a]);
    let after_enable = m.insert(a, with_trap(m[a]));
    assert(after_enable.insert(a, with_low_byte(after_enable[a], low_byte(m[a]))) =~= m);
}

} // verus!
