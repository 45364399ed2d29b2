use vdebugger::register::{
    get_register_from_dwarf, get_register_from_name, get_register_name, get_register_value,
    get_register_value_from_dwarf_register, register_descriptors, set_register_value, Reg,
    RegisterBank,
};

const ALL_REGS: [Reg; 27] = [
    Reg::Rax,
    Reg::Rbx,
    Reg::Rcx,
    Reg::Rdx,
    Reg::Rdi,
    Reg::Rsi,
    Reg::Rbp,
    Reg::Rsp,
    Reg::R8,
    Reg::R9,
    Reg::R10,
    Reg::R11,
    Reg::R12,
    Reg::R13,
    Reg::R14,
    Reg::R15,
    Reg::Rip,
    Reg::Rflags,
    Reg::Cs,
    Reg::OrigRax,
    Reg::FsBase,
    Reg::GsBase,
    Reg::Fs,
    Reg::Gs,
    Reg::Ss,
    Reg::Ds,
    Reg::Es,
];

#[test]
fn register_round_trip_every_register() {
    for (i, r) in ALL_REGS.iter().enumerate() {
        let mut bank = RegisterBank::zeroed();
        let v = 0x8000_0000_0000_0000u64 | (i as u64 + 1);
        set_register_value(&mut bank, *r, v);
        assert_eq!(get_register_value(&bank, *r), v);
    }
}

#[test]
fn register_write_leaves_others_alone() {
    let mut bank = RegisterBank::zeroed();
    set_register_value(&mut bank, Reg::Rax, 42);
    for r in ALL_REGS.iter() {
        if *r != Reg::Rax {
            assert_eq!(get_register_value(&bank, *r), 0);
        }
    }
}

#[test]
fn name_lookup_is_case_insensitive() {
    assert_eq!(
        get_register_from_name(&String::from("RAX")),
        get_register_from_name(&String::from("rax"))
    );
    assert_eq!(get_register_from_name(&String::from("RAX")), Some(Reg::Rax));
    assert_eq!(get_register_from_name(&String::from("Fs_Base")), Some(Reg::FsBase));
    assert_eq!(get_register_from_name(&String::from("eFLAGS")), Some(Reg::Rflags));
    assert_eq!(get_register_from_name(&String::from("xyzzy")), None);
    assert_eq!(get_register_from_name(&String::from("")), None);
}

#[test]
fn every_register_name_resolves_back() {
    for r in ALL_REGS.iter() {
        let name = get_register_name(*r).unwrap();
        assert_eq!(get_register_from_name(&String::from(name)), Some(*r));
    }
}

#[test]
fn dwarf_numbers_match_the_table() {
    let expected: [(&str, i32); 25] = [
        ("rax", 0),
        ("rdx", 1),
        ("rcx", 2),
        ("rbx", 3),
        ("rsi", 4),
        ("rdi", 5),
        ("rbp", 6),
        ("rsp", 7),
        ("r8", 8),
        ("r9", 9),
        ("r10", 10),
        ("r11", 11),
        ("r12", 12),
        ("r13", 13),
        ("r14", 14),
        ("r15", 15),
        ("eflags", 49),
        ("es", 50),
        ("cs", 51),
        ("ss", 52),
        ("ds", 53),
        ("fs", 54),
        ("gs", 55),
        ("fs_base", 58),
        ("gs_base", 59),
    ];
    for (name, num) in expected.iter() {
        let reg = get_register_from_name(&String::from(*name)).unwrap();
        assert_eq!(get_register_from_dwarf(*num), Some(reg));
    }
    assert_eq!(get_register_from_dwarf(16), None);
    assert_eq!(get_register_from_dwarf(-1), None);
    assert_eq!(get_register_from_dwarf(60), None);
}

#[test]
fn dwarf_mapping_is_injective() {
    let mut seen: Vec<Reg> = Vec::new();
    for n in -2i32..70 {
        if let Some(r) = get_register_from_dwarf(n) {
            assert!(!seen.contains(&r));
            seen.push(r);
        }
    }
    assert_eq!(seen.len(), 25);
}

#[test]
fn dwarf_register_value_selection() {
    let mut bank = RegisterBank::zeroed();
    set_register_value(&mut bank, Reg::Rdx, 7);
    assert_eq!(get_register_value_from_dwarf_register(&bank, 1), Some(7));
    assert_eq!(get_register_value_from_dwarf_register(&bank, 0), Some(0));
    assert_eq!(get_register_value_from_dwarf_register(&bank, 17), None);
}

#[test]
fn descriptor_table_order_and_contents() {
    let descs = register_descriptors();
    assert_eq!(descs.len(), 27);
    let expected_names = [
        "rax", "rdx", "rcx", "rbx", "rsi", "rdi", "rbp", "rsp", "r8", "r9", "r10", "r11", "r12",
        "r13", "r14", "r15", "eflags", "es", "cs", "ss", "ds", "fs", "gs", "fs_base", "gs_base",
        "rip", "orig_rax",
    ];
    let expected_dwarf: [Option<i32>; 27] = [
        Some(0),
        Some(1),
        Some(2),
        Some(3),
        Some(4),
        Some(5),
        Some(6),
        Some(7),
        Some(8),
        Some(9),
        Some(10),
        Some(11),
        Some(12),
        Some(13),
        Some(14),
        Some(15),
        Some(49),
        Some(50),
        Some(51),
        Some(52),
        Some(53),
        Some(54),
        Some(55),
        Some(58),
        Some(59),
        None,
        None,
    ];
    for (i, d) in descs.iter().enumerate() {
        assert_eq!(d.name, expected_names[i]);
        assert_eq!(get_register_name(d.r), Some(expected_names[i]));
        assert_eq!(d.dwarf_r, expected_dwarf[i]);
    }
}
