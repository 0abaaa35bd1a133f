//! The LoongArch virtual CPU: its register state and the decisions taken on it.
use crate::regs::{
    gpr_of_raw, gpr_write, GeneralPurposeRegisters, GprIndex, GuestCpuState, GuestVirtualHsCsrs,
    VmCpuRegisters,
};
use crate::LoongArchVCpuCreateConfig;
use core::marker::PhantomData;
use vstd::prelude::*;

verus! {

/// Setup configuration of a vCPU (it carries nothing).
#[derive(Clone, Copy, Debug, Default)]
pub struct VCpuConfig {}

/// Why the guest left, as the hypervisor is told.
#[derive(Debug, Clone, Copy)]
pub enum ExitReason {
    /// The guest made a hypercall: its number and its first six arguments.
    Hypercall { nr: u64, args: [u64; 6] },
    /// Nothing needs the hypervisor's attention.
    Nothing,
    /// A guest access missed the nested page table.
    NestedPageFault {
        /// Guest-physical address of the access.
        addr: usize,
        /// Bits of the access flags.
        access_flags: usize,
    },
}

/// Exception code of a hypercall.
pub const ECODE_HYPERCALL: usize = 0x100;

/// Exception code that the handler reads as a timer interrupt.
pub const ECODE_TIMER: usize = 0x400;

/// Exception code that the handler reads as a page fault.
pub const ECODE_PAGE_FAULT: usize = 0x800;

/// The exception code that the exit handler reads from an ESTAT value.
pub open spec fn ecode(estat: usize) -> usize {
    (estat >> 16) & 0x3ff
}

/// The exit handler knows the trap that `estat` records.
pub open spec fn is_handled_trap(estat: usize) -> bool {
    ||| ecode(estat) == ECODE_HYPERCALL
    ||| ecode(estat) == ECODE_TIMER
    ||| ecode(estat) == ECODE_PAGE_FAULT
}

/// `regs` with the guest's general-purpose registers replaced by `gprs`.
pub open spec fn with_guest_gprs(regs: VmCpuRegisters, gprs: GeneralPurposeRegisters) -> VmCpuRegisters {
    VmCpuRegisters { guest_regs: GuestCpuState { gprs, ..regs.guest_regs }, ..regs }
}

/// `regs` with the guest's exception return address set to `era`.
pub open spec fn with_guest_era(regs: VmCpuRegisters, era: usize) -> VmCpuRegisters {
    VmCpuRegisters { guest_regs: GuestCpuState { era, ..regs.guest_regs }, ..regs }
}

/// `regs` with the nested page-table root set to `hgatp`.
pub open spec fn with_hgatp(regs: VmCpuRegisters, hgatp: usize) -> VmCpuRegisters {
    VmCpuRegisters { virtual_hs_csrs: GuestVirtualHsCsrs { hgatp, ..regs.virtual_hs_csrs }, ..regs }
}

/// Each update of the register state writes exactly the value it is given and keeps every
/// other register.
pub proof fn lemma_updates_write_their_value(
    regs: VmCpuRegisters,
    era: usize,
    hgatp: usize,
    gprs: GeneralPurposeRegisters,
)
    ensures
        with_guest_era(regs, era).guest_regs.era == era,
        with_guest_era(regs, era).guest_regs.gprs == regs.guest_regs.gprs,
        with_guest_era(regs, era).guest_regs.crmd == regs.guest_regs.crmd,
        with_guest_era(regs, era).virtual_hs_csrs == regs.virtual_hs_csrs,
        with_guest_era(regs, era).hyp_regs == regs.hyp_regs,
        with_guest_era(regs, era).trap_csrs == regs.trap_csrs,
        with_hgatp(regs, hgatp).virtual_hs_csrs.hgatp == hgatp,
        with_hgatp(regs, hgatp).virtual_hs_csrs.hcfg == regs.virtual_hs_csrs.hcfg,
        with_hgatp(regs, hgatp).guest_regs == regs.guest_regs,
        with_guest_gprs(regs, gprs).guest_regs.gprs == gprs,
        with_guest_gprs(regs, gprs).guest_regs.era == regs.guest_regs.era,
        with_guest_gprs(regs, gprs).hyp_regs == regs.hyp_regs,
{
}

/// The exception code read by the exit handler is at most ten bits wide, so only the
/// hypercall code among the handled ones can ever be read.
pub proof fn lemma_ecode_range(estat: usize)
    ensures
        ecode(estat) < 0x400,
        is_handled_trap(estat) <==> ecode(estat) == ECODE_HYPERCALL,
{
    assert((estat >> 16) & 0x3ff < 0x400) by (bit_vector);
}

/// A LoongArch virtual CPU.
pub struct LoongArchVCpu<H> {
    regs: VmCpuRegisters,
    _marker: PhantomData<H>,
}

impl<H> View for LoongArchVCpu<H> {
    type V = VmCpuRegisters;

    closed spec fn view(&self) -> VmCpuRegisters {
        self.regs
    }
}

impl<H> Default for LoongArchVCpu<H> {
    fn default() -> (r: Self)
        ensures
            r@.is_reset(),
            r@.guest_regs.crmd == 0 && r@.guest_regs.era == 0,
            forall|i: int| 0 <= i < 32 ==> #[trigger] r@.guest_regs.gprs@[i] == 0,
            r@.virtual_hs_csrs.hgatp == 0,
    {
        LoongArchVCpu { regs: VmCpuRegisters::default(), _marker: PhantomData }
    }
}

impl<H> LoongArchVCpu<H> {
    /// A vCPU with all registers zero but `a0`, which holds the hart ID, and `a1`, which
    /// holds the address of the device tree.
    pub fn new(config: LoongArchVCpuCreateConfig) -> (r: Self)
        ensures
            r@.hyp_regs.is_reset(),
            r@.guest_regs.csrs_reset(),
            r@.guest_regs.gprs@ == crate::regs::zero_words().update(
                GprIndex::A0.id(),
                config.hart_id,
            ).update(GprIndex::A1.id(), config.dtb_addr),
            r@.vs_csrs.is_reset(),
            r@.virtual_hs_csrs.is_reset(),
            r@.trap_csrs.is_reset(),
            r@.guest_regs.gprs@[GprIndex::A0.id()] == config.hart_id,
            r@.guest_regs.gprs@[GprIndex::A1.id()] == config.dtb_addr,
            forall|g: GprIndex|
                g != GprIndex::A0 && g != GprIndex::A1 ==> #[trigger] r@.guest_regs.gprs@[g.id()]
                    == 0,
            r@.guest_regs.crmd == 0 && r@.guest_regs.prmd == 0 && r@.guest_regs.euen == 0,
            r@.guest_regs.ecfg == 0 && r@.guest_regs.estat == 0 && r@.guest_regs.era == 0,
            r@.guest_regs.badv == 0,
            r@.virtual_hs_csrs.hgatp == 0,
    {
        let mut regs = VmCpuRegisters::default();
        regs.guest_regs.gprs.set_reg(GprIndex::A0, config.hart_id);
        regs.guest_regs.gprs.set_reg(GprIndex::A1, config.dtb_addr);
        Self { regs, _marker: PhantomData }
    }

    /// Resets the guest's exception return address and the nested page-table root.
    pub fn setup(&mut self, _config: ())
        ensures
            final(self)@ == with_hgatp(with_guest_era(old(self)@, 0), 0),
            final(self)@.guest_regs.era == 0,
            final(self)@.virtual_hs_csrs.hgatp == 0,
    {
        self.regs.guest_regs.era = 0;
        self.regs.virtual_hs_csrs.hgatp = 0;
    }

    /// Sets where the guest starts: its exception return address.
    pub fn set_entry(&mut self, entry: usize)
        ensures
            final(self)@ == with_guest_era(old(self)@, entry),
            final(self)@.guest_regs.era == entry,
    {
        self.regs.guest_regs.era = entry;
    }

    /// Sets the root of the nested page table.
    pub fn set_ept_root(&mut self, ept_root: usize)
        ensures
            final(self)@ == with_hgatp(old(self)@, ept_root),
            final(self)@.virtual_hs_csrs.hgatp == ept_root,
    {
        self.regs.virtual_hs_csrs.hgatp = ept_root;
    }

    /// Writes `val` to the guest register with the raw number `index` (truncated to 32
    /// bits); an unknown number is ignored.
    pub fn set_gpr(&mut self, index: usize, val: usize)
        ensures
            final(self)@ == with_guest_gprs(old(self)@, final(self)@.guest_regs.gprs),
            final(self)@.guest_regs.gprs@ == match gpr_of_raw(index as u32) {
                Some(reg) => gpr_write(old(self)@.guest_regs.gprs@, reg, val),
                None => old(self)@.guest_regs.gprs@,
            },
    {
        if let Some(idx) = GprIndex::from_raw(index as u32) {
            self.set_gpr_from_gpr_index(idx, val);
        }
    }

    /// The value of the guest register `index`.
    pub fn get_gpr(&self, index: GprIndex) -> (r: usize)
        ensures
            r == self@.guest_regs.gprs@[index.id()],
    {
        self.regs.guest_regs.gprs.reg(index)
    }

    /// Writes `val` to the guest register `index`; writes to `Zero` are ignored.
    pub fn set_gpr_from_gpr_index(&mut self, index: GprIndex, val: usize)
        ensures
            final(self)@ == with_guest_gprs(old(self)@, final(self)@.guest_regs.gprs),
            final(self)@.guest_regs.gprs@ == gpr_write(old(self)@.guest_regs.gprs@, index, val),
    {
        self.regs.guest_regs.gprs.set_reg(index, val);
    }

    /// Moves the guest's exception return address forward by `instr_len` bytes.
    pub fn advance_pc(&mut self, instr_len: usize)
        requires
            old(self)@.guest_regs.era + instr_len <= usize::MAX,
        ensures
            final(self)@ == with_guest_era(old(self)@, (old(self)@.guest_regs.era + instr_len) as usize),
            final(self)@.guest_regs.era == old(self)@.guest_regs.era + instr_len,
    {
        self.regs.guest_regs.era += instr_len;
    }

    /// The whole register state, to be read or written in place.
    pub fn regs(&mut self) -> (r: &mut VmCpuRegisters)
        ensures
            *r == old(self)@,
            final(self)@ == *final(r),
    {
        &mut self.regs
    }

    /// Decides what a guest exit means from the trap state the exit left behind. A hypercall
    /// also moves the guest past the four-byte `syscall` instruction.
    pub fn vmexit_handler(&mut self) -> (r: ExitReason)
        requires
            is_handled_trap(old(self)@.trap_csrs.estat),
            ecode(old(self)@.trap_csrs.estat) == ECODE_HYPERCALL ==> old(self)@.guest_regs.era + 4
                <= usize::MAX,
        ensures
            ecode(old(self)@.trap_csrs.estat) == ECODE_HYPERCALL ==> {
                let g = old(self)@.guest_regs.gprs@;
                &&& final(self)@ == with_guest_era(old(self)@, (old(self)@.guest_regs.era + 4) as usize)
                &&& final(self)@.guest_regs.era == old(self)@.guest_regs.era + 4
                &&& r matches ExitReason::Hypercall { nr, args } && nr == g[GprIndex::A7.id()] as u64
                    && args@ == seq![
                    g[GprIndex::A0.id()] as u64,
                    g[GprIndex::A1.id()] as u64,
                    g[GprIndex::A2.id()] as u64,
                    g[GprIndex::A3.id()] as u64,
                    g[GprIndex::A4.id()] as u64,
                    g[GprIndex::A5.id()] as u64,
                ]
            },
            ecode(old(self)@.trap_csrs.estat) == ECODE_TIMER ==> {
                &&& final(self)@ == old(self)@
                &&& r == ExitReason::Nothing
            },
            ecode(old(self)@.trap_csrs.estat) == ECODE_PAGE_FAULT ==> {
                &&& final(self)@ == old(self)@
                &&& r == (ExitReason::NestedPageFault { addr: old(self)@.trap_csrs.badv, access_flags: 0 })
            },
    {
        let estat = self.regs.trap_csrs.estat;
        let ecode = (estat >> 16) & 0x3ff;
        if ecode == ECODE_HYPERCALL {
            self.advance_pc(4);
            let gprs = &self.regs.guest_regs.gprs;
            ExitReason::Hypercall {
                nr: gprs.reg(GprIndex::A7) as u64,
                args: [
                    gprs.reg(GprIndex::A0) as u64,
                    gprs.reg(GprIndex::A1) as u64,
                    gprs.reg(GprIndex::A2) as u64,
                    gprs.reg(GprIndex::A3) as u64,
                    gprs.reg(GprIndex::A4) as u64,
                    gprs.reg(GprIndex::A5) as u64,
                ],
            }
        } else if ecode == ECODE_TIMER {
            ExitReason::Nothing
        } else {
            let badv = self.regs.trap_csrs.badv;
            ExitReason::NestedPageFault { addr: badv, access_flags: 0 }
        }
    }

    /// An inter-processor interrupt needs nothing from the hypervisor.
    #[allow(dead_code)]
    fn handle_ipi(&mut self) -> (r: ExitReason)
        ensures
            r == ExitReason::Nothing,
            final(self)@ == old(self)@,
    {
        ExitReason::Nothing
    }
}

} // verus!
