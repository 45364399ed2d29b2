//! The register file: the closed set of x86-64 registers the debugger can
//! address, the kernel register bank they live in, the descriptor table
//! that fixes names, DWARF numbers and the dump order, and the lookups and
//! accessors over them.

use vstd::prelude::*;

use crate::text::{eq_ignore_ascii_case, to_lower_seq};

verus! {

/// A symbolic x86-64 register identifier.
#[derive(Debug, Clone, Copy, PartialEq, Eq, Structural)]
pub enum Reg {
    Rax,
    Rbx,
    Rcx,
    Rdx,
    Rdi,
    Rsi,
    Rbp,
    Rsp,
    R8,
    R9,
    R10,
    R11,
    R12,
    R13,
    R14,
    R15,
    Rip,
    Rflags,
    Cs,
    OrigRax,
    FsBase,
    GsBase,
    Fs,
    Gs,
    Ss,
    Ds,
    Es,
}

/// A snapshot of the kernel's user-register record for x86-64, read and
/// written as one unit by the tracing primitives.
#[derive(Debug, Clone, Copy, PartialEq, Eq, Structural)]
pub struct RegisterBank {
    pub rax: u64,
    pub rbx: u64,
    pub rcx: u64,
    pub rdx: u64,
    pub rdi: u64,
    pub rsi: u64,
    pub rbp: u64,
    pub rsp: u64,
    pub r8: u64,
    pub r9: u64,
    pub r10: u64,
    pub r11: u64,
    pub r12: u64,
    pub r13: u64,
    pub r14: u64,
    pub r15: u64,
    pub rip: u64,
    pub eflags: u64,
    pub cs: u64,
    pub orig_rax: u64,
    pub fs_base: u64,
    pub gs_base: u64,
    pub fs: u64,
    pub gs: u64,
    pub ss: u64,
    pub ds: u64,
    pub es: u64,
}

impl RegisterBank {
    /// A bank with every register zero; a convenient starting state for a
    /// simulated debuggee.
    pub fn zeroed() -> (b: RegisterBank)
        ensures
            forall|r: Reg| #[trigger] spec_read(b, r) == 0,
    {
        RegisterBank {
            rax: 0,
            rbx: 0,
            rcx: 0,
            rdx: 0,
            rdi: 0,
            rsi: 0,
            rbp: 0,
            rsp: 0,
            r8: 0,
            r9: 0,
            r10: 0,
            r11: 0,
            r12: 0,
            r13: 0,
            r14: 0,
            r15: 0,
            rip: 0,
            eflags: 0,
            cs: 0,
            orig_rax: 0,
            fs_base: 0,
            gs_base: 0,
            fs: 0,
            gs: 0,
            ss: 0,
            ds: 0,
            es: 0,
        }
    }
}

/// The bank field a register selects.
pub open spec fn spec_read(b: RegisterBank, r: Reg) -> u64 {
    match r {
        Reg::Rax => b.rax,
        Reg::Rbx => b.rbx,
        Reg::Rcx => b.rcx,
        Reg::Rdx => b.rdx,
        Reg::Rdi => b.rdi,
        Reg::Rsi => b.rsi,
        Reg::Rbp => b.rbp,
        Reg::Rsp => b.rsp,
        Reg::R8 => b.r8,
        Reg::R9 => b.r9,
        Reg::R10 => b.r10,
        Reg::R11 => b.r11,
        Reg::R12 => b.r12,
        Reg::R13 => b.r13,
        Reg::R14 => b.r14,
        Reg::R15 => b.r15,
        Reg::Rip => b.rip,
        Reg::Rflags => b.eflags,
        Reg::Cs => b.cs,
        Reg::OrigRax => b.orig_rax,
        Reg::FsBase => b.fs_base,
        Reg::GsBase => b.gs_base,
        Reg::Fs => b.fs,
        Reg::Gs => b.gs,
        Reg::Ss => b.ss,
        Reg::Ds => b.ds,
        Reg::Es => b.es,
    }
}

/// The bank with the selected field replaced by `v`.
pub open spec fn spec_write(b: RegisterBank, r: Reg, v: u64) -> RegisterBank {
    match r {
        Reg::Rax => RegisterBank { rax: v, ..b },
        Reg::Rbx => RegisterBank { rbx: v, ..b },
        Reg::Rcx => RegisterBank { rcx: v, ..b },
        Reg::Rdx => RegisterBank { rdx: v, ..b },
        Reg::Rdi => RegisterBank { rdi: v, ..b },
        Reg::Rsi => RegisterBank { rsi: v, ..b },
        Reg::Rbp => RegisterBank { rbp: v, ..b },
        Reg::Rsp => RegisterBank { rsp: v, ..b },
        Reg::R8 => RegisterBank { r8: v, ..b },
        Reg::R9 => RegisterBank { r9: v, ..b },
        Reg::R10 => RegisterBank { r10: v, ..b },
        Reg::R11 => RegisterBank { r11: v, ..b },
        Reg::R12 => RegisterBank { r12: v, ..b },
        Reg::R13 => RegisterBank { r13: v, ..b },
        Reg::R14 => RegisterBank { r14: v, ..b },
        Reg::R15 => RegisterBank { r15: v, ..b },
        Reg::Rip => RegisterBank { rip: v, ..b },
        Reg::Rflags => RegisterBank { eflags: v, ..b },
        Reg::Cs => RegisterBank { cs: v, ..b },
        Reg::OrigRax => RegisterBank { orig_rax: v, ..b },
        Reg::FsBase => RegisterBank { fs_base: v, ..b },
        Reg::GsBase => RegisterBank { gs_base: v, ..b },
        Reg::Fs => RegisterBank { fs: v, ..b },
        Reg::Gs => RegisterBank { gs: v, ..b },
        Reg::Ss => RegisterBank { ss: v, ..b },
        Reg::Ds => RegisterBank { ds: v, ..b },
        Reg::Es => RegisterBank { es: v, ..b },
    }
}

/// Selects a register's value out of a register bank snapshot.
pub fn get_register_value(regs: &RegisterBank, r: Reg) -> (v: u64)
    ensures
        v == spec_read(*regs, r),
{
    match r {
        Reg::Rax => regs.rax,
        Reg::Rbx => regs.rbx,
        Reg::Rcx => regs.rcx,
        Reg::Rdx => regs.rdx,
        Reg::Rdi => regs.rdi,
        Reg::Rsi => regs.rsi,
        Reg::Rbp => regs.rbp,
        Reg::Rsp => regs.rsp,
        Reg::R8 => regs.r8,
        Reg::R9 => regs.r9,
        Reg::R10 => regs.r10,
        Reg::R11 => regs.r11,
        Reg::R12 => regs.r12,
        Reg::R13 => regs.r13,
        Reg::R14 => regs.r14,
        Reg::R15 => regs.r15,
        Reg::Rip => regs.rip,
        Reg::Rflags => regs.eflags,
        Reg::Cs => regs.cs,
        Reg::OrigRax => regs.orig_rax,
        Reg::FsBase => regs.fs_base,
        Reg::GsBase => regs.gs_base,
        Reg::Fs => regs.fs,
        Reg::Gs => regs.gs,
        Reg::Ss => regs.ss,
        Reg::Ds => regs.ds,
        Reg::Es => regs.es,
    }
}

/// Assigns a register's field in a register bank snapshot.
pub fn set_register_value(regs: &mut RegisterBank, r: Reg, value: u64)
    ensures
        *final(regs) == spec_write(*old(regs), r, value),
{
    match r {
        Reg::Rax => regs.rax = value,
        Reg::Rbx => regs.rbx = value,
        Reg::Rcx => regs.rcx = value,
        Reg::Rdx => regs.rdx = value,
        Reg::Rdi => regs.rdi = value,
        Reg::Rsi => regs.rsi = value,
        Reg::Rbp => regs.rbp = value,
        Reg::Rsp => regs.rsp = value,
        Reg::R8 => regs.r8 = value,
        Reg::R9 => regs.r9 = value,
        Reg::R10 => regs.r10 = value,
        Reg::R11 => regs.r11 = value,
        Reg::R12 => regs.r12 = value,
        Reg::R13 => regs.r13 = value,
        Reg::R14 => regs.r14 = value,
        Reg::R15 => regs.r15 = value,
        Reg::Rip => regs.rip = value,
        Reg::Rflags => regs.eflags = value,
        Reg::Cs => regs.cs = value,
        Reg::OrigRax => regs.orig_rax = value,
        Reg::FsBase => regs.fs_base = value,
        Reg::GsBase => regs.gs_base = value,
        Reg::Fs => regs.fs = value,
        Reg::Gs => regs.gs = value,
        Reg::Ss => regs.ss = value,
        Reg::Ds => regs.ds = value,
        Reg::Es => regs.es = value,
    }
}

/// The canonical lowercase name of a register.
pub open spec fn spec_name(r: Reg) -> Seq<char> {
    match r {
        Reg::Rax => "rax"@,
        Reg::Rbx => "rbx"@,
        Reg::Rcx => "rcx"@,
        Reg::Rdx => "rdx"@,
        Reg::Rdi => "rdi"@,
        Reg::Rsi => "rsi"@,
        Reg::Rbp => "rbp"@,
        Reg::Rsp => "rsp"@,
        Reg::R8 => "r8"@,
        Reg::R9 => "r9"@,
        Reg::R10 => "r10"@,
        Reg::R11 => "r11"@,
        Reg::R12 => "r12"@,
        Reg::R13 => "r13"@,
        Reg::R14 => "r14"@,
        Reg::R15 => "r15"@,
        Reg::Rip => "rip"@,
        Reg::Rflags => "eflags"@,
        Reg::Cs => "cs"@,
        Reg::OrigRax => "orig_rax"@,
        Reg::FsBase => "fs_base"@,
        Reg::GsBase => "gs_base"@,
        Reg::Fs => "fs"@,
        Reg::Gs => "gs"@,
        Reg::Ss => "ss"@,
        Reg::Ds => "ds"@,
        Reg::Es => "es"@,
    }
}

/// The DWARF number of a register, where the standard assigns one; the
/// instruction pointer and `orig_rax` carry none.
pub open spec fn spec_dwarf(r: Reg) -> Option<i32> {
    match r {
        Reg::Rax => Some(0),
        Reg::Rdx => Some(1),
        Reg::Rcx => Some(2),
        Reg::Rbx => Some(3),
        Reg::Rsi => Some(4),
        Reg::Rdi => Some(5),
        Reg::Rbp => Some(6),
        Reg::Rsp => Some(7),
        Reg::R8 => Some(8),
        Reg::R9 => Some(9),
        Reg::R10 => Some(10),
        Reg::R11 => Some(11),
        Reg::R12 => Some(12),
        Reg::R13 => Some(13),
        Reg::R14 => Some(14),
        Reg::R15 => Some(15),
        Reg::Rflags => Some(49),
        Reg::Es => Some(50),
        Reg::Cs => Some(51),
        Reg::Ss => Some(52),
        Reg::Ds => Some(53),
        Reg::Fs => Some(54),
        Reg::Gs => Some(55),
        Reg::FsBase => Some(58),
        Reg::GsBase => Some(59),
        Reg::Rip => None,
        Reg::OrigRax => None,
    }
}

/// The register a DWARF number designates, where one does.
pub open spec fn spec_reg_of_dwarf(n: i32) -> Option<Reg> {
    if n == 0 {
        Some(Reg::Rax)
    } else if n == 1 {
        Some(Reg::Rdx)
    } else if n == 2 {
        Some(Reg::Rcx)
    } else if n == 3 {
        Some(Reg::Rbx)
    } else if n == 4 {
        Some(Reg::Rsi)
    } else if n == 5 {
        Some(Reg::Rdi)
    } else if n == 6 {
        Some(Reg::Rbp)
    } else if n == 7 {
        Some(Reg::Rsp)
    } else if n == 8 {
        Some(Reg::R8)
    } else if n == 9 {
        Some(Reg::R9)
    } else if n == 10 {
        Some(Reg::R10)
    } else if n == 11 {
        Some(Reg::R11)
    } else if n == 12 {
        Some(Reg::R12)
    } else if n == 13 {
        Some(Reg::R13)
    } else if n == 14 {
        Some(Reg::R14)
    } else if n == 15 {
        Some(Reg::R15)
    } else if n == 49 {
        Some(Reg::Rflags)
    } else if n == 50 {
        Some(Reg::Es)
    } else if n == 51 {
        Some(Reg::Cs)
    } else if n == 52 {
        Some(Reg::Ss)
    } else if n == 53 {
        Some(Reg::Ds)
    } else if n == 54 {
        Some(Reg::Fs)
    } else if n == 55 {
        Some(Reg::Gs)
    } else if n == 58 {
        Some(Reg::FsBase)
    } else if n == 59 {
        Some(Reg::GsBase)
    } else {
        None
    }
}

/// The register a lowercase name designates, if any.
pub open spec fn spec_reg_of_name(s: Seq<char>) -> Option<Reg> {
    if s == spec_name(Reg::Rax) {
        Some(Reg::Rax)
    } else if s == spec_name(Reg::Rbx) {
        Some(Reg::Rbx)
    } else if s == spec_name(Reg::Rcx) {
        Some(Reg::Rcx)
    } else if s == spec_name(Reg::Rdx) {
        Some(Reg::Rdx)
    } else if s == spec_name(Reg::Rdi) {
        Some(Reg::Rdi)
    } else if s == spec_name(Reg::Rsi) {
        Some(Reg::Rsi)
    } else if s == spec_name(Reg::Rbp) {
        Some(Reg::Rbp)
    } else if s == spec_name(Reg::Rsp) {
        Some(Reg::Rsp)
    } else if s == spec_name(Reg::R8) {
        Some(Reg::R8)
    } else if s == spec_name(Reg::R9) {
        Some(Reg::R9)
    } else if s == spec_name(Reg::R10) {
        Some(Reg::R10)
    } else if s == spec_name(Reg::R11) {
        Some(Reg::R11)
    } else if s == spec_name(Reg::R12) {
        Some(Reg::R12)
    } else if s == spec_name(Reg::R13) {
        Some(Reg::R13)
    } else if s == spec_name(Reg::R14) {
        Some(Reg::R14)
    } else if s == spec_name(Reg::R15) {
        Some(Reg::R15)
    } else if s == spec_name(Reg::Rip) {
        Some(Reg::Rip)
    } else if s == spec_name(Reg::Rflags) {
        Some(Reg::Rflags)
    } else if s == spec_name(Reg::Cs) {
        Some(Reg::Cs)
    } else if s == spec_name(Reg::OrigRax) {
        Some(Reg::OrigRax)
    } else if s == spec_name(Reg::FsBase) {
        Some(Reg::FsBase)
    } else if s == spec_name(Reg::GsBase) {
        Some(Reg::GsBase)
    } else if s == spec_name(Reg::Fs) {
        Some(Reg::Fs)
    } else if s == spec_name(Reg::Gs) {
        Some(Reg::Gs)
    } else if s == spec_name(Reg::Ss) {
        Some(Reg::Ss)
    } else if s == spec_name(Reg::Ds) {
        Some(Reg::Ds)
    } else if s == spec_name(Reg::Es) {
        Some(Reg::Es)
    } else {
        None
    }
}

/// One row of the descriptor table.
#[derive(Debug, Clone, Copy)]
pub struct RegDescriptor {
    pub r: Reg,
    pub dwarf_r: Option<i32>,
    pub name: &'static str,
}

/// The display order of the dump command: the DWARF-numbered registers in
/// DWARF order, then the two registers without a number.
pub open spec fn spec_table() -> Seq<Reg> {
    seq![
        Reg::Rax,
        Reg::Rdx,
        Reg::Rcx,
        Reg::Rbx,
        Reg::Rsi,
        Reg::Rdi,
        Reg::Rbp,
        Reg::Rsp,
        Reg::R8,
        Reg::R9,
        Reg::R10,
        Reg::R11,
        Reg::R12,
        Reg::R13,
        Reg::R14,
        Reg::R15,
        Reg::Rflags,
        Reg::Es,
        Reg::Cs,
        Reg::Ss,
        Reg::Ds,
        Reg::Fs,
        Reg::Gs,
        Reg::FsBase,
        Reg::GsBase,
        Reg::Rip,
        Reg::OrigRax,
    ]
}

/// The descriptor table in display order; each row carries the register,
/// its DWARF number and its canonical name.
pub fn register_descriptors() -> (v: Vec<RegDescriptor>)
    ensures
        v@.len() == spec_table().len(),
        forall|i: int|
            0 <= i < v@.len() ==> {
                let d = #[trigger] v@[i];
                &&& d.r == spec_table()[i]
                &&& d.dwarf_r == spec_dwarf(spec_table()[i])
                &&& d.name@ == spec_name(spec_table()[i])
            },
{
    let mut v: Vec<RegDescriptor> = Vec::new();
    v.push(RegDescriptor { r: Reg::Rax, dwarf_r: Some(0), name: "rax" });
    v.push(RegDescriptor { r: Reg::Rdx, dwarf_r: Some(1), name: "rdx" });
    v.push(RegDescriptor { r: Reg::Rcx, dwarf_r: Some(2), name: "rcx" });
    v.push(RegDescriptor { r: Reg::Rbx, dwarf_r: Some(3), name: "rbx" });
    v.push(RegDescriptor { r: Reg::Rsi, dwarf_r: Some(4), name: "rsi" });
    v.push(RegDescriptor { r: Reg::Rdi, dwarf_r: Some(5), name: "rdi" });
    v.push(RegDescriptor { r: Reg::Rbp, dwarf_r: Some(6), name: "rbp" });
    v.push(RegDescriptor { r: Reg::Rsp, dwarf_r: Some(7), name: "rsp" });
    v.push(RegDescriptor { r: Reg::R8, dwarf_r: Some(8), name: "r8" });
    v.push(RegDescriptor { r: Reg::R9, dwarf_r: Some(9), name: "r9" });
    v.push(RegDescriptor { r: Reg::R10, dwarf_r: Some(10), name: "r10" });
    v.push(RegDescriptor { r: Reg::R11, dwarf_r: Some(11), name: "r11" });
    v.push(RegDescriptor { r: Reg::R12, dwarf_r: Some(12), name: "r12" });
    v.push(RegDescriptor { r: Reg::R13, dwarf_r: Some(13), name: "r13" });
    v.push(RegDescriptor { r: Reg::R14, dwarf_r: Some(14), name: "r14" });
    v.push(RegDescriptor { r: Reg::R15, dwarf_r: Some(15), name: "r15" });
    v.push(RegDescriptor { r: Reg::Rflags, dwarf_r: Some(49), name: "eflags" });
    v.push(RegDescriptor { r: Reg::Es, dwarf_r: Some(50), name: "es" });
    v.push(RegDescriptor { r: Reg::Cs, dwarf_r: Some(51), name: "cs" });
    v.push(RegDescriptor { r: Reg::Ss, dwarf_r: Some(52), name: "ss" });
    v.push(RegDescriptor { r: Reg::Ds, dwarf_r: Some(53), name: "ds" });
    v.push(RegDescriptor { r: Reg::Fs, dwarf_r: Some(54), name: "fs" });
    v.push(RegDescriptor { r: Reg::Gs, dwarf_r: Some(55), name: "gs" });
    v.push(RegDescriptor { r: Reg::FsBase, dwarf_r: Some(58), name: "fs_base" });
    v.push(RegDescriptor { r: Reg::GsBase, dwarf_r: Some(59), name: "gs_base" });
    v.push(RegDescriptor { r: Reg::Rip, dwarf_r: None, name: "rip" });
    v.push(RegDescriptor { r: Reg::OrigRax, dwarf_r: None, name: "orig_rax" });
    v
}

/// Gives a register's canonical display name.
pub fn get_register_name(r: Reg) -> (n: Option<&'static str>)
    ensures
        n matches Some(s) && s@ == spec_name(r),
{
    match r {
        Reg::Rax => Some("rax"),
        Reg::Rbx => Some("rbx"),
        Reg::Rcx => Some("rcx"),
        Reg::Rdx => Some("rdx"),
        Reg::Rdi => Some("rdi"),
        Reg::Rsi => Some("rsi"),
        Reg::Rbp => Some("rbp"),
        Reg::Rsp => Some("rsp"),
        Reg::R8 => Some("r8"),
        Reg::R9 => Some("r9"),
        Reg::R10 => Some("r10"),
        Reg::R11 => Some("r11"),
        Reg::R12 => Some("r12"),
        Reg::R13 => Some("r13"),
        Reg::R14 => Some("r14"),
        Reg::R15 => Some("r15"),
        Reg::Rip => Some("rip"),
        Reg::Rflags => Some("eflags"),
        Reg::Cs => Some("cs"),
        Reg::OrigRax => Some("orig_rax"),
        Reg::FsBase => Some("fs_base"),
        Reg::GsBase => Some("gs_base"),
        Reg::Fs => Some("fs"),
        Reg::Gs => Some("gs"),
        Reg::Ss => Some("ss"),
        Reg::Ds => Some("ds"),
        Reg::Es => Some("es"),
    }
}

/// Resolves a register name, matched case-insensitively against the
/// canonical name set.
pub fn get_register_from_name(name: &String) -> (r: Option<Reg>)
    ensures
        r == spec_reg_of_name(to_lower_seq(name@)),
{
    let s = name.as_str();
    if eq_ignore_ascii_case(s, "rax") {
        Some(Reg::Rax)
    } else if eq_ignore_ascii_case(s, "rbx") {
        Some(Reg::Rbx)
    } else if eq_ignore_ascii_case(s, "rcx") {
        Some(Reg::Rcx)
    } else if eq_ignore_ascii_case(s, "rdx") {
        Some(Reg::Rdx)
    } else if eq_ignore_ascii_case(s, "rdi") {
        Some(Reg::Rdi)
    } else if eq_ignore_ascii_case(s, "rsi") {
        Some(Reg::Rsi)
    } else if eq_ignore_ascii_case(s, "rbp") {
        Some(Reg::Rbp)
    } else if eq_ignore_ascii_case(s, "rsp") {
        Some(Reg::Rsp)
    } else if eq_ignore_ascii_case(s, "r8") {
        Some(Reg::R8)
    } else if eq_ignore_ascii_case(s, "r9") {
        Some(Reg::R9)
    } else if eq_ignore_ascii_case(s, "r10") {
        Some(Reg::R10)
    } else if eq_ignore_ascii_case(s, "r11") {
        Some(Reg::R11)
    } else if eq_ignore_ascii_case(s, "r12") {
        Some(Reg::R12)
    } else if eq_ignore_ascii_case(s, "r13") {
        Some(Reg::R13)
    } else if eq_ignore_ascii_case(s, "r14") {
        Some(Reg::R14)
    } else if eq_ignore_ascii_case(s, "r15") {
        Some(Reg::R15)
    } else if eq_ignore_ascii_case(s, "rip") {
        Some(Reg::Rip)
    } else if eq_ignore_ascii_case(s, "eflags") {
        Some(Reg::Rflags)
    } else if eq_ignore_ascii_case(s, "cs") {
        Some(Reg::Cs)
    } else if eq_ignore_ascii_case(s, "orig_rax") {
        Some(Reg::OrigRax)
    } else if eq_ignore_ascii_case(s, "fs_base") {
        Some(Reg::FsBase)
    } else if eq_ignore_ascii_case(s, "gs_base") {
        Some(Reg::GsBase)
    } else if eq_ignore_ascii_case(s, "fs") {
        Some(Reg::Fs)
    } else if eq_ignore_ascii_case(s, "gs") {
        Some(Reg::Gs)
    } else if eq_ignore_ascii_case(s, "ss") {
        Some(Reg::Ss)
    } else if eq_ignore_ascii_case(s, "ds") {
        Some(Reg::Ds)
    } else if eq_ignore_ascii_case(s, "es") {
        Some(Reg::Es)
    } else {
        None
    }
}

/// Resolves a DWARF register number.
pub fn get_register_from_dwarf(reg_num: i32) -> (r: Option<Reg>)
    ensures
        r == spec_reg_of_dwarf(reg_num),
{
    if reg_num == 0 {
        Some(Reg::Rax)
    } else if reg_num == 1 {
        Some(Reg::Rdx)
    } else if reg_num == 2 {
        Some(Reg::Rcx)
    } else if reg_num == 3 {
        Some(Reg::Rbx)
    } else if reg_num == 4 {
        Some(Reg::Rsi)
    } else if reg_num == 5 {
        Some(Reg::Rdi)
    } else if reg_num == 6 {
        Some(Reg::Rbp)
    } else if reg_num == 7 {
        Some(Reg::Rsp)
    } else if reg_num == 8 {
        Some(Reg::R8)
    } else if reg_num == 9 {
        Some(Reg::R9)
    } else if reg_num == 10 {
        Some(Reg::R10)
    } else if reg_num == 11 {
        Some(Reg::R11)
    } else if reg_num == 12 {
        Some(Reg::R12)
    } else if reg_num == 13 {
        Some(Reg::R13)
    } else if reg_num == 14 {
        Some(Reg::R14)
    } else if reg_num == 15 {
        Some(Reg::R15)
    } else if reg_num == 49 {
        Some(Reg::Rflags)
    } else if reg_num == 50 {
        Some(Reg::Es)
    } else if reg_num == 51 {
        Some(Reg::Cs)
    } else if reg_num == 52 {
        Some(Reg::Ss)
    } else if reg_num == 53 {
        Some(Reg::Ds)
    } else if reg_num == 54 {
        Some(Reg::Fs)
    } else if reg_num == 55 {
        Some(Reg::Gs)
    } else if reg_num == 58 {
        Some(Reg::FsBase)
    } else if reg_num == 59 {
        Some(Reg::GsBase)
    } else {
        None
    }
}

/// Selects, by DWARF number, a register's value out of a bank snapshot;
/// nothing for a number outside the table.
pub fn get_register_value_from_dwarf_register(regs: &RegisterBank, reg_num: i32) -> (r: Option<
    u64,
>)
    ensures
        r == match spec_reg_of_dwarf(reg_num) {
            Some(reg) => Some(spec_read(*regs, reg)),
            None => None::<u64>,
        },
{
    match get_register_from_dwarf(reg_num) {
        Some(reg) => Some(get_register_value(regs, reg)),
        None => None,
    }
}

/// No two registers share a DWARF number.
pub proof fn lemma_dwarf_injective(r1: Reg, r2: Reg)
    requires
        spec_dwarf(r1) is Some,
        spec_dwarf(r1) == spec_dwarf(r2),
    ensures
        r1 == r2,
{
}

/// A DWARF lookup inverts the number assignment: the register found carries
/// the number looked up, and a number no register carries finds nothing.
pub proof fn lemma_dwarf_lookup_consistent(n: i32)
    ensures
        match spec_reg_of_dwarf(n) {
            Some(r) => spec_dwarf(r) == Some(n),
            None => forall|r: Reg| #[trigger] spec_dwarf(r) != Some(n),
        },
{
}

/// Register names resolve case-insensitively: a name and its case-folded
/// image designate the same register.
pub proof fn lemma_register_name_case_insensitive(s1: Seq<char>, s2: Seq<char>)
    requires
        s2 == to_lower_seq(s1),
    ensures
        spec_reg_of_name(to_lower_seq(s2)) == spec_reg_of_name(to_lower_seq(s1)),
{
    crate::text::lemma_to_lower_idempotent(s1);
}

/// Writing a register and reading it back yields the written value, and
/// leaves every other register as it was.
pub proof fn lemma_register_round_trip(b: RegisterBank, r: Reg, v: u64)
    ensures
        spec_read(spec_write(b, r, v), r) == v,
        forall|r2: Reg| r2 != r ==> #[trigger] spec_read(spec_write(b, r, v), r2) == spec_read(
            b,
            r2,
        ),
{
}

} // verus!
