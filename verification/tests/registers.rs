use loongarch_vcpu::register::crmd::Crmd;
use loongarch_vcpu::register::ecfg::Ecfg;
use loongarch_vcpu::register::eentry::Eentry;
use loongarch_vcpu::register::estat::{Estat, Exception};
use loongarch_vcpu::register::gstat::{set_gid, set_pgm, Gstat};

#[test]
fn crmd_bits_round_trip() {
    assert_eq!(Crmd::from_bits(0x1234_5678).bits(), 0x1234_5678);
    assert_eq!(Crmd::from_bits(usize::MAX).bits(), usize::MAX);
}

#[test]
fn crmd_ie_reads_bit_two() {
    assert!(Crmd::from_bits(0b100).ie());
    assert!(!Crmd::from_bits(0b011).ie());
    assert!(!Crmd::from_bits(0).ie());
    assert!(Crmd::from_bits(usize::MAX).ie());
}

#[test]
fn crmd_ie_cleared_and_set() {
    assert_eq!(Crmd::ie_cleared(0xff), 0xfb);
    assert_eq!(Crmd::ie_cleared(0x3), 0x3);
    assert_eq!(Crmd::ie_set(0), 0x4);
    assert_eq!(Crmd::ie_set(0xf0), 0xf4);
    assert!(!Crmd::from_bits(Crmd::ie_cleared(usize::MAX)).ie());
    assert!(Crmd::from_bits(Crmd::ie_set(0)).ie());
}

#[test]
fn crmd_set_bits_replaces_field() {
    let mut c = Crmd::from_bits(0);
    c.set_bits(3..=5, 0b101);
    assert_eq!(c.bits(), 0b101000);
    let mut c = Crmd::from_bits(usize::MAX);
    c.set_bits(0..=3, 0);
    assert_eq!(c.bits(), usize::MAX & !0xf);
    let mut c = Crmd::from_bits(0xabcd);
    c.set_bits(8..=7, 0);
    assert_eq!(c.bits(), 0xabcd);
}

#[test]
fn ecfg_and_eentry_set_bits() {
    let mut e = Ecfg::from_bits(0x800);
    e.set_bits(12..=13, 0b11);
    assert_eq!(e.bits(), 0x3800);
    let mut n = Eentry::from_bits(0x9000_0000);
    n.set_bits(0..=11, 0xabc);
    assert_eq!(n.bits(), 0x9000_0abc);
    assert_eq!(Eentry::from_bits(7).bits(), 7);
}

#[test]
fn estat_cause_reads_low_five_bits() {
    assert!(matches!(Estat::from_bits(0).cause(), Exception::Int));
    assert!(matches!(Estat::from_bits(15).cause(), Exception::IPE));
    assert!(matches!(Estat::from_bits(22).cause(), Exception::TLBR));
    assert!(matches!(Estat::from_bits(0x20 | 3).cause(), Exception::PIF));
    assert!(matches!(Estat::from_bits((0x100 << 16) | 12).cause(), Exception::SYS));
    let mut s = Estat::from_bits(0);
    s.set_bits(0..=4, 13);
    assert!(matches!(s.cause(), Exception::BRK));
}

#[test]
fn gstat_fields() {
    let g = Gstat::from((0x5a << 16) | (0b11_1111 << 4) | 0b10);
    assert_eq!(g.gid(), 0x5a);
    assert_eq!(g.gidbits(), 63);
    assert!(g.pgm());
    let g = Gstat::from(0);
    assert_eq!(g.gid(), 0);
    assert_eq!(g.gidbits(), 0);
    assert!(!g.pgm());
}

#[test]
fn gstat_set_gid_reads_back() {
    let mut g = Gstat::from((0b101 << 4) | 0b10 | (0x11 << 16));
    set_gid(&mut g, 0xa5);
    assert_eq!(g.gid(), 0xa5);
    assert_eq!(g.gidbits(), 0b101);
    assert!(g.pgm());
    assert_eq!(g.raw(), (0xa5 << 16) | (0b101 << 4) | 0b10);
}

#[test]
fn gstat_set_pgm_reads_back() {
    let mut g = Gstat::from(0x42 << 16);
    set_pgm(&mut g, true);
    assert!(g.pgm());
    assert_eq!(g.gid(), 0x42);
    assert_eq!(g.raw(), (0x42 << 16) | 0b10);
    set_pgm(&mut g, false);
    assert!(!g.pgm());
    assert_eq!(g.raw(), 0x42 << 16);
}

#[test]
fn writing_back_a_field_changes_nothing() {
    let mut c = Crmd::from_bits(0xdead_beef);
    let low = 0xdead_beefusize & 0xff;
    c.set_bits(0..=7, low);
    assert_eq!(c.bits(), 0xdead_beef);
}

#[test]
fn second_write_to_a_field_wins() {
    let mut e = Ecfg::from_bits(0xf0f0);
    e.set_bits(4..=7, 0x3);
    e.set_bits(4..=7, 0xa);
    assert_eq!(e.bits(), 0xf0a0);
}

#[test]
fn every_exception_code_has_its_own_exception() {
    let mut names = Vec::new();
    for code in 0..=22usize {
        let name = format!("{:?}", Estat::from_bits(code).cause());
        assert!(!names.contains(&name));
        names.push(name);
    }
    assert_eq!(names.len(), 23);
    assert_eq!(names[22], "TLBR");
}
