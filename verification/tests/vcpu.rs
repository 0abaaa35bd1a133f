use loongarch_vcpu::detect::{detect_h_extension, detect_trap_outcome};
use loongarch_vcpu::percpu::{HardwareError, LoongArchPerCpu};
use loongarch_vcpu::register::estat::Estat;
use loongarch_vcpu::regs::{GeneralPurposeRegisters, GprIndex, VmCpuRegisters};
use loongarch_vcpu::vcpu::ExitReason;
use loongarch_vcpu::{LoongArchVCpu, LoongArchVCpuCreateConfig, EID_LAV};

#[test]
fn gpr_index_from_raw() {
    assert_eq!(GprIndex::from_raw(0), Some(GprIndex::Zero));
    assert_eq!(GprIndex::from_raw(3), Some(GprIndex::GP));
    assert_eq!(GprIndex::from_raw(8), Some(GprIndex::S0));
    assert_eq!(GprIndex::from_raw(10), Some(GprIndex::A0));
    assert_eq!(GprIndex::from_raw(17), Some(GprIndex::A7));
    assert_eq!(GprIndex::from_raw(25), Some(GprIndex::T3));
    assert_eq!(GprIndex::from_raw(30), Some(GprIndex::T8));
    assert_eq!(GprIndex::from_raw(31), Some(GprIndex::Zero));
    assert_eq!(GprIndex::from_raw(32), None);
    assert_eq!(GprIndex::from_raw(u32::MAX), None);
}

#[test]
fn gpr_index_positions() {
    assert_eq!(GprIndex::Zero.index(), 0);
    assert_eq!(GprIndex::A0.index(), 14);
    assert_eq!(GprIndex::A7.index(), 21);
    assert_eq!(GprIndex::S8.index(), 30);
}

#[test]
fn from_raw_is_a_bijection_below_31() {
    let mut seen = [false; 32];
    for raw in 0..31u32 {
        let i = GprIndex::from_raw(raw).unwrap().index();
        assert!(!seen[i]);
        seen[i] = true;
    }
    assert!(seen[..31].iter().all(|s| *s));
}

#[test]
fn register_file_reads_back_writes() {
    let mut g = GeneralPurposeRegisters::default();
    g.set_reg(GprIndex::A3, 33);
    g.set_reg(GprIndex::SP, 0x1000);
    assert_eq!(g.reg(GprIndex::A3), 33);
    assert_eq!(g.reg(GprIndex::SP), 0x1000);
    assert_eq!(g.reg(GprIndex::A2), 0);
    g.set_reg(GprIndex::Zero, 5);
    assert_eq!(g.reg(GprIndex::Zero), 0);
}

#[test]
fn argument_registers() {
    let mut g = GeneralPurposeRegisters::default();
    g.set_reg(GprIndex::A0, 1);
    g.set_reg(GprIndex::A7, 8);
    g.set_reg(GprIndex::T8, 99);
    assert_eq!(g.a_regs(), &[1, 0, 0, 0, 0, 0, 0, 8]);
    g.a_regs_mut()[2] = 3;
    assert_eq!(g.reg(GprIndex::A2), 3);
    assert_eq!(g.reg(GprIndex::T8), 99);
    assert_eq!(g.a_regs().len(), 8);
}

#[test]
fn config_default() {
    let c = LoongArchVCpuCreateConfig::default();
    assert_eq!(c.hart_id, 0);
    assert_eq!(c.dtb_addr, 0x8000_0000);
    assert_eq!(EID_LAV, 0x4C4156);
}

#[test]
fn new_vcpu_holds_hart_id_and_dtb() {
    let mut v = LoongArchVCpu::<()>::new(LoongArchVCpuCreateConfig { hart_id: 3, dtb_addr: 0x9000_0000 });
    assert_eq!(v.get_gpr(GprIndex::A0), 3);
    assert_eq!(v.get_gpr(GprIndex::A1), 0x9000_0000);
    assert_eq!(v.get_gpr(GprIndex::A2), 0);
    assert_eq!(v.regs().guest_regs.era, 0);
    assert_eq!(v.regs().virtual_hs_csrs.hgatp, 0);
}

#[test]
fn default_vcpu_is_zero() {
    let mut v = LoongArchVCpu::<()>::default();
    assert_eq!(v.get_gpr(GprIndex::A0), 0);
    assert_eq!(v.regs().trap_csrs.estat, 0);
    let r = VmCpuRegisters::default();
    assert_eq!(r.hyp_regs.crmd, 0);
    assert_eq!(r.guest_regs.gprs.reg(GprIndex::RA), 0);
}

#[test]
fn entry_root_and_setup() {
    let mut v = LoongArchVCpu::<()>::new(LoongArchVCpuCreateConfig::default());
    v.set_entry(0x8020_0000);
    v.set_ept_root(0x1234_5000);
    assert_eq!(v.regs().guest_regs.era, 0x8020_0000);
    assert_eq!(v.regs().virtual_hs_csrs.hgatp, 0x1234_5000);
    v.setup(());
    assert_eq!(v.regs().guest_regs.era, 0);
    assert_eq!(v.regs().virtual_hs_csrs.hgatp, 0);
    assert_eq!(v.get_gpr(GprIndex::A1), 0x8000_0000);
}

#[test]
fn set_gpr_by_raw_number() {
    let mut v = LoongArchVCpu::<()>::default();
    v.set_gpr(10, 7);
    assert_eq!(v.get_gpr(GprIndex::A0), 7);
    v.set_gpr(31, 9);
    assert_eq!(v.get_gpr(GprIndex::Zero), 0);
    v.set_gpr(40, 9);
    assert_eq!(v.regs().guest_regs.gprs.a_regs(), &[7, 0, 0, 0, 0, 0, 0, 0]);
    v.set_gpr((1usize << 32) + 11, 5);
    assert_eq!(v.get_gpr(GprIndex::A1), 5);
    v.set_gpr_from_gpr_index(GprIndex::S2, 4);
    assert_eq!(v.get_gpr(GprIndex::S2), 4);
}

#[test]
fn advance_pc_moves_era() {
    let mut v = LoongArchVCpu::<()>::default();
    v.set_entry(0x100);
    v.advance_pc(4);
    v.advance_pc(8);
    assert_eq!(v.regs().guest_regs.era, 0x10c);
}

#[test]
fn hypercall_exit() {
    let mut v = LoongArchVCpu::<()>::default();
    for (raw, val) in [(10usize, 1usize), (11, 2), (12, 3), (13, 4), (14, 5), (15, 6), (16, 7), (17, EID_LAV)] {
        v.set_gpr(raw, val);
    }
    v.set_entry(0x2000);
    v.regs().trap_csrs.estat = 0x100 << 16;
    match v.vmexit_handler() {
        ExitReason::Hypercall { nr, args } => {
            assert_eq!(nr, EID_LAV as u64);
            assert_eq!(args, [1, 2, 3, 4, 5, 6]);
        }
        _ => panic!("expected a hypercall"),
    }
    assert_eq!(v.regs().guest_regs.era, 0x2004);
}

#[test]
fn hypercall_exit_ignores_other_estat_bits() {
    let mut v = LoongArchVCpu::<()>::default();
    v.regs().trap_csrs.estat = (0x100 << 16) | (0x3f << 26) | 0x1fff;
    assert!(matches!(v.vmexit_handler(), ExitReason::Hypercall { nr: 0, args: [0, 0, 0, 0, 0, 0] }));
    assert_eq!(v.regs().guest_regs.era, 4);
}

#[test]
fn per_cpu_hardware_enable() {
    let mut p = LoongArchPerCpu::<()>::new(0);
    assert_eq!(p.hardware_enable(true), Ok(()));
    assert_eq!(p.hardware_enable(false), Err(HardwareError::Unsupported));
}

#[test]
fn detection() {
    assert!(detect_h_extension(0));
    assert!(detect_h_extension(2));
    assert!(!detect_h_extension(15));
    assert!(!detect_h_extension(0x40_000f));
    let (tp, _) = detect_trap_outcome(&Estat::from_bits(0x1_000f), 0);
    assert!(!detect_h_extension(tp));
    assert_eq!(detect_trap_outcome(&Estat::from_bits(15), 0x100), (15, 0x104));
    assert_eq!(detect_trap_outcome(&Estat::from_bits(0x40_000f), usize::MAX - 1), (0x40_000f, 2));
}
