use riscv_interrupt::interrupt::{disable, enable, free, CriticalSection};
use riscv_interrupt::register::{Mstatus, MIE_MASK};

#[test]
fn mie_reads_bit_three() {
    assert!(Mstatus::from_bits(0x8).mie());
    assert!(!Mstatus::from_bits(0x7).mie());
    assert!(Mstatus::from_bits(0x1888).mie());
    assert_eq!(MIE_MASK, 0x8);
}

#[test]
fn set_and_clear_touch_only_mie() {
    let mut m = Mstatus::from_bits(0x1880);
    m.set_mie();
    assert_eq!(m.bits(), 0x1888);
    m.set_mie();
    assert_eq!(m.bits(), 0x1888);
    m.clear_mie();
    assert_eq!(m.bits(), 0x1880);
    m.clear_mie();
    assert_eq!(m.bits(), 0x1880);
}

#[test]
fn disable_and_enable_are_idempotent() {
    let mut m = Mstatus::from_bits(0x0a);
    disable(&mut m);
    assert_eq!(m.bits(), 0x02);
    disable(&mut m);
    assert_eq!(m.bits(), 0x02);
    enable(&mut m);
    assert_eq!(m.bits(), 0x0a);
    enable(&mut m);
    assert_eq!(m.bits(), 0x0a);
}

#[test]
fn free_passes_the_result_through() {
    let mut m = Mstatus::from_bits(0x8);
    assert_eq!(free(&mut m, |_: &CriticalSection, _: &mut Mstatus| 42u32), 42);
    assert_eq!(m.bits(), 0x8);
    let s = free(&mut m, |_: &CriticalSection, _: &mut Mstatus| String::from("kept"));
    assert_eq!(s, "kept");
    let v = free(&mut m, |_: &CriticalSection, _: &mut Mstatus| vec![1u8, 2, 3]);
    assert_eq!(v, vec![1u8, 2, 3]);
    assert_eq!(m.bits(), 0x8);
}

#[test]
fn free_keeps_disabled_interrupts_disabled() {
    let mut m = Mstatus::from_bits(0x1800);
    let seen = free(&mut m, |_: &CriticalSection, s: &mut Mstatus| s.mie());
    assert!(!seen);
    assert!(!m.mie());
    assert_eq!(m.bits(), 0x1800);
}

#[test]
fn free_restores_enabled_interrupts() {
    let mut m = Mstatus::from_bits(0x1808);
    free(&mut m, |_: &CriticalSection, _: &mut Mstatus| ());
    assert!(m.mie());
    assert_eq!(m.bits(), 0x1808);
}

#[test]
fn computation_sees_interrupts_disabled_then_enabled_after() {
    let mut m = Mstatus::from_bits(MIE_MASK);
    assert!(m.mie());
    free(&mut m, |_: &CriticalSection, s: &mut Mstatus| {
        assert!(!s.mie());
    });
    assert!(m.mie());
}

#[test]
fn nested_free_matches_single_free() {
    let mut single = Mstatus::from_bits(0x8);
    let a = free(&mut single, |_: &CriticalSection, _: &mut Mstatus| 7i64);
    let mut double = Mstatus::from_bits(0x8);
    let b = free(&mut double, |_: &CriticalSection, s: &mut Mstatus| {
        let y = free(s, |_: &CriticalSection, _: &mut Mstatus| 7i64);
        assert!(!s.mie());
        y
    });
    assert_eq!(a, 7);
    assert_eq!(b, 7);
    assert_eq!(single, double);
    assert!(double.mie());
}

#[test]
fn deep_nesting_stays_disabled_until_the_outermost_exit() {
    let mut m = Mstatus::from_bits(0x88);
    let depth = free(&mut m, |_: &CriticalSection, s1: &mut Mstatus| {
        assert!(!s1.mie());
        let d = free(s1, |_: &CriticalSection, s2: &mut Mstatus| {
            assert!(!s2.mie());
            let d = free(s2, |_: &CriticalSection, s3: &mut Mstatus| {
                assert!(!s3.mie());
                3u8
            });
            assert!(!s2.mie());
            d
        });
        assert!(!s1.mie());
        d
    });
    assert_eq!(depth, 3);
    assert_eq!(m.bits(), 0x88);
}

#[test]
fn free_keeps_what_the_computation_wrote_to_other_bits() {
    let mut m = Mstatus::from_bits(0x8);
    free(&mut m, |_: &CriticalSection, s: &mut Mstatus| {
        *s = Mstatus::from_bits(s.bits() | 0x80);
    });
    assert_eq!(m.bits(), 0x88);

    let mut off = Mstatus::from_bits(0x0);
    free(&mut off, |_: &CriticalSection, s: &mut Mstatus| {
        *s = Mstatus::from_bits(s.bits() | 0x80);
    });
    assert_eq!(off.bits(), 0x80);
}
