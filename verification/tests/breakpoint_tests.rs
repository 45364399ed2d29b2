use vdebugger::breakpoint::Breakpoint;
use vdebugger::register::RegisterBank;
use vdebugger::sim::SimTracer;
use vdebugger::trace::{PtraceOps, TraceError};

#[test]
fn test_enable_disable_data_preservation() {
    let addr: u64 = 0x1000;
    let mut sim = SimTracer::new(RegisterBank::zeroed());
    let initial_data: u64 = 0x1122334455667788;
    let expected_data_after_enable: u64 = 0x11223344556677CC;
    sim.map_word(addr, initial_data);

    let mut breakpoint = Breakpoint::new(addr);
    breakpoint.enable(&mut sim).unwrap();

    assert!(breakpoint.enabled);
    assert_eq!(breakpoint.saved_data, 0x88);
    assert_eq!(sim.read(addr).unwrap(), expected_data_after_enable);

    breakpoint.disable(&mut sim).unwrap();
    assert!(!breakpoint.enabled);
    assert_eq!(sim.read(addr).unwrap(), initial_data);
}

#[test]
fn enable_disable_round_trip_at_0x400000() {
    let mut sim = SimTracer::new(RegisterBank::zeroed());
    sim.map_word(0x400000, 0x1122334455667788);

    let mut bp = Breakpoint::new(0x400000);
    bp.enable(&mut sim).unwrap();
    assert_eq!(sim.read(0x400000).unwrap(), 0x11223344556677CC);
    assert_eq!(bp.saved_data, 0x88);

    bp.disable(&mut sim).unwrap();
    assert_eq!(sim.read(0x400000).unwrap(), 0x1122334455667788);
}

#[test]
fn enable_places_trap_and_preserves_high_bytes() {
    let mut sim = SimTracer::new(RegisterBank::zeroed());
    sim.map_word(0x2000, 0xAABBCCDDEEFF0011);

    let mut bp = Breakpoint::new(0x2000);
    bp.enable(&mut sim).unwrap();
    let word = sim.read(0x2000).unwrap();
    assert_eq!(word & 0xff, 0xCC);
    assert_eq!(word >> 8, 0xAABBCCDDEEFF0011u64 >> 8);
}

#[test]
fn enable_fails_on_unmapped_address() {
    let mut sim = SimTracer::new(RegisterBank::zeroed());
    let mut bp = Breakpoint::new(0x3000);
    let r = bp.enable(&mut sim);
    assert_eq!(r, Err(TraceError::Memory));
    assert!(!bp.enabled);
    assert_eq!(bp.saved_data, 0);
}

#[test]
fn disable_fails_on_unmapped_address() {
    let mut sim = SimTracer::new(RegisterBank::zeroed());
    sim.map_word(0x4000, 0x42);
    let mut bp = Breakpoint::new(0x4000);
    bp.enable(&mut sim).unwrap();

    // The breakpoint's own address is gone in a fresh debuggee image.
    let mut gone = SimTracer::new(RegisterBank::zeroed());
    let r = bp.disable(&mut gone);
    assert_eq!(r, Err(TraceError::Memory));
    assert!(bp.enabled);
}

#[test]
fn untouched_words_stay_untouched() {
    let mut sim = SimTracer::new(RegisterBank::zeroed());
    sim.map_word(0x5000, 0x1111111111111111);
    sim.map_word(0x5008, 0x2222222222222222);

    let mut bp = Breakpoint::new(0x5000);
    bp.enable(&mut sim).unwrap();
    bp.disable(&mut sim).unwrap();
    assert_eq!(sim.read(0x5000).unwrap(), 0x1111111111111111);
    assert_eq!(sim.read(0x5008).unwrap(), 0x2222222222222222);
}
