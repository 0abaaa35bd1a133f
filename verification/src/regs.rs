//! Register files of a LoongArch virtual CPU: general-purpose registers and the CSR
//! groups saved and restored around guest execution.
use vstd::prelude::*;

verus! {

/// Number of general-purpose registers.
pub const GPR_COUNT: usize = 32;

/// The 32 general-purpose registers, indexed by `GprIndex`.
#[derive(Debug, Clone)]
pub struct GeneralPurposeRegisters([usize; 32]);

/// Index of LoongArch general-purpose registers in `GeneralPurposeRegisters`.
#[allow(missing_docs)]
#[derive(Clone, Copy, Debug, Eq, PartialEq, Structural)]
pub enum GprIndex {
    Zero,
    RA,
    SP,
    GP,
    TP,
    T0,
    T1,
    T2,
    T3,
    T4,
    T5,
    T6,
    T7,
    T8,
    A0,
    A1,
    A2,
    A3,
    A4,
    A5,
    A6,
    A7,
    S0,
    S1,
    S2,
    S3,
    S4,
    S5,
    S6,
    S7,
    S8,
}

/// The general-purpose register that the raw register number `raw` names, if any.
pub open spec fn gpr_of_raw(raw: u32) -> Option<GprIndex> {
    match raw {
        0 => Some(GprIndex::Zero),
        1 => Some(GprIndex::RA),
        2 => Some(GprIndex::SP),
        3 => Some(GprIndex::GP),
        4 => Some(GprIndex::TP),
        5 => Some(GprIndex::T0),
        6 => Some(GprIndex::T1),
        7 => Some(GprIndex::T2),
        8 => Some(GprIndex::S0),
        9 => Some(GprIndex::S1),
        10 => Some(GprIndex::A0),
        11 => Some(GprIndex::A1),
        12 => Some(GprIndex::A2),
        13 => Some(GprIndex::A3),
        14 => Some(GprIndex::A4),
        15 => Some(GprIndex::A5),
        16 => Some(GprIndex::A6),
        17 => Some(GprIndex::A7),
        18 => Some(GprIndex::S2),
        19 => Some(GprIndex::S3),
        20 => Some(GprIndex::S4),
        21 => Some(GprIndex::S5),
        22 => Some(GprIndex::S6),
        23 => Some(GprIndex::S7),
        24 => Some(GprIndex::S8),
        25 => Some(GprIndex::T3),
        26 => Some(GprIndex::T4),
        27 => Some(GprIndex::T5),
        28 => Some(GprIndex::T6),
        29 => Some(GprIndex::T7),
        30 => Some(GprIndex::T8),
        31 => Some(GprIndex::Zero),
        _ => None,
    }
}

/// The register contents `regs` after writing `val` to `reg`; writes to `Zero` are ignored.
pub open spec fn gpr_write(regs: Seq<usize>, reg: GprIndex, val: usize) -> Seq<usize> {
    if reg == GprIndex::Zero {
        regs
    } else {
        regs.update(reg.id(), val)
    }
}

/// Index of the first argument register `A0`.
pub open spec fn a0_index() -> int {
    14
}

/// The sequence of `GPR_COUNT` zero words.
pub open spec fn zero_words() -> Seq<usize> {
    Seq::new(32, |_i: int| 0usize)
}

/// The argument register `A<k>`, for `k` in `0..8`.
pub open spec fn argument_register(k: int) -> GprIndex {
    if k == 0 {
        GprIndex::A0
    } else if k == 1 {
        GprIndex::A1
    } else if k == 2 {
        GprIndex::A2
    } else if k == 3 {
        GprIndex::A3
    } else if k == 4 {
        GprIndex::A4
    } else if k == 5 {
        GprIndex::A5
    } else if k == 6 {
        GprIndex::A6
    } else {
        GprIndex::A7
    }
}

/// The sequence of zero words has `GPR_COUNT` entries, each of them 0.
pub proof fn lemma_zero_words()
    ensures
        zero_words().len() == GPR_COUNT,
        forall|i: int| 0 <= i < GPR_COUNT ==> #[trigger] zero_words()[i] == 0,
{
}

impl GprIndex {
    /// Position of the register in `GeneralPurposeRegisters`.
    pub open spec fn id(self) -> int {
        match self {
            GprIndex::Zero => 0,
            GprIndex::RA => 1,
            GprIndex::SP => 2,
            GprIndex::GP => 3,
            GprIndex::TP => 4,
            GprIndex::T0 => 5,
            GprIndex::T1 => 6,
            GprIndex::T2 => 7,
            GprIndex::T3 => 8,
            GprIndex::T4 => 9,
            GprIndex::T5 => 10,
            GprIndex::T6 => 11,
            GprIndex::T7 => 12,
            GprIndex::T8 => 13,
            GprIndex::A0 => 14,
            GprIndex::A1 => 15,
            GprIndex::A2 => 16,
            GprIndex::A3 => 17,
            GprIndex::A4 => 18,
            GprIndex::A5 => 19,
            GprIndex::A6 => 20,
            GprIndex::A7 => 21,
            GprIndex::S0 => 22,
            GprIndex::S1 => 23,
            GprIndex::S2 => 24,
            GprIndex::S3 => 25,
            GprIndex::S4 => 26,
            GprIndex::S5 => 27,
            GprIndex::S6 => 28,
            GprIndex::S7 => 29,
            GprIndex::S8 => 30,
        }
    }

    /// Position of the register in `GeneralPurposeRegisters`.
    pub fn index(self) -> (r: usize)
        ensures
            r == self.id(),
            r < GPR_COUNT,
    {
        match self {
            GprIndex::Zero => 0,
            GprIndex::RA => 1,
            GprIndex::SP => 2,
            GprIndex::GP => 3,
            GprIndex::TP => 4,
            GprIndex::T0 => 5,
            GprIndex::T1 => 6,
            GprIndex::T2 => 7,
            GprIndex::T3 => 8,
            GprIndex::T4 => 9,
            GprIndex::T5 => 10,
            GprIndex::T6 => 11,
            GprIndex::T7 => 12,
            GprIndex::T8 => 13,
            GprIndex::A0 => 14,
            GprIndex::A1 => 15,
            GprIndex::A2 => 16,
            GprIndex::A3 => 17,
            GprIndex::A4 => 18,
            GprIndex::A5 => 19,
            GprIndex::A6 => 20,
            GprIndex::A7 => 21,
            GprIndex::S0 => 22,
            GprIndex::S1 => 23,
            GprIndex::S2 => 24,
            GprIndex::S3 => 25,
            GprIndex::S4 => 26,
            GprIndex::S5 => 27,
            GprIndex::S6 => 28,
            GprIndex::S7 => 29,
            GprIndex::S8 => 30,
        }
    }

    /// Get register index from raw value.
    pub fn from_raw(raw: u32) -> (r: Option<Self>)
        ensures
            r == gpr_of_raw(raw),
    {
        let index = match raw {
            0 => GprIndex::Zero,
            1 => GprIndex::RA,
            2 => GprIndex::SP,
            3 => GprIndex::GP,
            4 => GprIndex::TP,
            5 => GprIndex::T0,
            6 => GprIndex::T1,
            7 => GprIndex::T2,
            8 => GprIndex::S0,
            9 => GprIndex::S1,
            10 => GprIndex::A0,
            11 => GprIndex::A1,
            12 => GprIndex::A2,
            13 => GprIndex::A3,
            14 => GprIndex::A4,
            15 => GprIndex::A5,
            16 => GprIndex::A6,
            17 => GprIndex::A7,
            18 => GprIndex::S2,
            19 => GprIndex::S3,
            20 => GprIndex::S4,
            21 => GprIndex::S5,
            22 => GprIndex::S6,
            23 => GprIndex::S7,
            24 => GprIndex::S8,
            25 => GprIndex::T3,
            26 => GprIndex::T4,
            27 => GprIndex::T5,
            28 => GprIndex::T6,
            29 => GprIndex::T7,
            30 => GprIndex::T8,
            31 => GprIndex::Zero,
            _ => {
                return None;
            },
        };
        Some(index)
    }
}

impl GprIndex {
    /// The raw register number below 31 that names this register.
    pub open spec fn raw_number(self) -> u32 {
        match self {
            GprIndex::Zero => 0,
            GprIndex::RA => 1,
            GprIndex::SP => 2,
            GprIndex::GP => 3,
            GprIndex::TP => 4,
            GprIndex::T0 => 5,
            GprIndex::T1 => 6,
            GprIndex::T2 => 7,
            GprIndex::T3 => 25,
            GprIndex::T4 => 26,
            GprIndex::T5 => 27,
            GprIndex::T6 => 28,
            GprIndex::T7 => 29,
            GprIndex::T8 => 30,
            GprIndex::A0 => 10,
            GprIndex::A1 => 11,
            GprIndex::A2 => 12,
            GprIndex::A3 => 13,
            GprIndex::A4 => 14,
            GprIndex::A5 => 15,
            GprIndex::A6 => 16,
            GprIndex::A7 => 17,
            GprIndex::S0 => 8,
            GprIndex::S1 => 9,
            GprIndex::S2 => 18,
            GprIndex::S3 => 19,
            GprIndex::S4 => 20,
            GprIndex::S5 => 21,
            GprIndex::S6 => 22,
            GprIndex::S7 => 23,
            GprIndex::S8 => 24,
        }
    }
}

/// `from_raw` accepts exactly the raw numbers below 32.
pub proof fn lemma_from_raw_domain(raw: u32)
    ensures
        gpr_of_raw(raw) is Some <==> raw < 32,
{
}

/// Every register is named by exactly one raw number below 31, so `from_raw` is a bijection
/// from `0..31` onto the registers; 31 names `Zero` as well.
pub proof fn lemma_from_raw_bijection(g: GprIndex, raw: u32)
    ensures
        g.raw_number() < 31,
        gpr_of_raw(g.raw_number()) == Some(g),
        raw < 31 ==> gpr_of_raw(raw)->0.raw_number() == raw,
        raw < 31 && gpr_of_raw(raw) == Some(g) ==> raw == g.raw_number(),
        gpr_of_raw(31) == Some(GprIndex::Zero),
{
}

/// Reading a register gives back what was last written to it, except that `Zero` ignores
/// writes; every other register keeps its value.
pub proof fn lemma_gpr_write_read(regs: Seq<usize>, reg: GprIndex, other: GprIndex, val: usize)
    requires
        regs.len() == GPR_COUNT,
    ensures
        gpr_write(regs, reg, val).len() == GPR_COUNT,
        reg != GprIndex::Zero ==> gpr_write(regs, reg, val)[reg.id()] == val,
        other != reg ==> gpr_write(regs, reg, val)[other.id()] == regs[other.id()],
        gpr_write(regs, GprIndex::Zero, val) == regs,
{
    lemma_id_injective(reg, other);
    lemma_id_injective(other, reg);
}

/// Each register sits at its declaration ordinal: `Zero`, `RA`, `SP`, `GP`, `TP` at 0 to 4,
/// `T0` to `T8` at 5 to 13, the argument registers `A0` to `A7` at 14 to 21 in order, and
/// `S0` to `S8` at 22 to 30.
pub proof fn lemma_register_positions(k: int)
    requires
        0 <= k < 8,
    ensures
        argument_register(k).id() == a0_index() + k,
        a0_index() == 14,
        GprIndex::Zero.id() == 0,
        GprIndex::RA.id() == 1,
        GprIndex::SP.id() == 2,
        GprIndex::GP.id() == 3,
        GprIndex::TP.id() == 4,
        GprIndex::T0.id() == 5,
        GprIndex::T8.id() == 13,
        GprIndex::A0.id() == 14,
        GprIndex::A1.id() == 15,
        GprIndex::A2.id() == 16,
        GprIndex::A3.id() == 17,
        GprIndex::A4.id() == 18,
        GprIndex::A5.id() == 19,
        GprIndex::A6.id() == 20,
        GprIndex::A7.id() == 21,
        GprIndex::S0.id() == 22,
        GprIndex::S8.id() == 30,
{
}

/// Distinct registers sit at distinct positions of the register file.
pub proof fn lemma_id_injective(a: GprIndex, b: GprIndex)
    ensures
        0 <= a.id() < GPR_COUNT,
        a.id() == b.id() ==> a == b,
{
}

impl View for GeneralPurposeRegisters {
    type V = Seq<usize>;

    closed spec fn view(&self) -> Seq<usize> {
        self.0@
    }
}

impl Default for GeneralPurposeRegisters {
    fn default() -> (r: Self)
        ensures
            r@ == zero_words(),
            r@.len() == GPR_COUNT,
            forall|i: int| 0 <= i < GPR_COUNT ==> #[trigger] r@[i] == 0,
    {
        let r = GeneralPurposeRegisters([0usize; 32]);
        assert(r@ =~= zero_words());
        r
    }
}

impl GeneralPurposeRegisters {
    /// There are always exactly `GPR_COUNT` registers.
    pub proof fn lemma_len(&self)
        ensures
            self@.len() == GPR_COUNT,
    {
    }

    /// Returns the value of the given register.
    pub fn reg(&self, reg_index: GprIndex) -> (r: usize)
        ensures
            r == self@[reg_index.id()],
    {
        self.0[reg_index.index()]
    }

    /// Sets the value of the given register; writes to `Zero` are ignored.
    pub fn set_reg(&mut self, reg_index: GprIndex, val: usize)
        ensures
            final(self)@ == gpr_write(old(self)@, reg_index, val),
    {
        if reg_index == GprIndex::Zero {
            return;
        }
        let i = reg_index.index();
        self.0[i] = val;
    }

    /// Returns the argument registers `A0` to `A7`.
    pub fn a_regs(&self) -> (r: &[usize])
        ensures
            r@ == self@.subrange(a0_index(), a0_index() + 8),
            r@.len() == 8,
            forall|k: int| 0 <= k < 8 ==> #[trigger] r@[k] == self@[argument_register(k).id()],
    {
        &self.0[14..22]
    }

    /// Returns the argument registers `A0` to `A7`, to be written in place.
    pub fn a_regs_mut(&mut self) -> (r: &mut [usize])
        ensures
            r@ == old(self)@.subrange(a0_index(), a0_index() + 8),
            r@.len() == 8,
            forall|k: int| 0 <= k < 8 ==> #[trigger] r@[k] == old(self)@[argument_register(k).id()],
            final(self)@ == old(self)@.subrange(0, a0_index()) + final(r)@ + old(self)@.subrange(
                a0_index() + 8,
                GPR_COUNT as int,
            ),
    {
        let all: &mut [usize] = &mut self.0;
        let (_low, rest) = all.split_at_mut(14);
        let (args, _high) = rest.split_at_mut(8);
        args
    }
}

/// Hypervisor GPR and CSR state which must be saved/restored when entering/exiting virtualization.
#[derive(Debug, Clone)]
pub struct HypervisorCpuState {
    /// General-purpose registers.
    pub gprs: GeneralPurposeRegisters,
    /// Current mode.
    pub crmd: usize,
    /// Previous mode.
    pub prmd: usize,
    /// Extended unit enable.
    pub euen: usize,
    /// Exception configuration.
    pub ecfg: usize,
    /// Exception status.
    pub estat: usize,
    /// Exception return address.
    pub era: usize,
    /// Bad virtual address.
    pub badv: usize,
}

impl HypervisorCpuState {
    /// Every register is zero.
    pub open spec fn is_reset(&self) -> bool {
        &&& self.gprs@ == zero_words()
        &&& self.crmd == 0
        &&& self.prmd == 0
        &&& self.euen == 0
        &&& self.ecfg == 0
        &&& self.estat == 0
        &&& self.era == 0
        &&& self.badv == 0
    }
}

impl Default for HypervisorCpuState {
    fn default() -> (r: Self)
        ensures
            r.is_reset(),
            r.crmd == 0,
            r.prmd == 0,
            r.euen == 0,
            r.ecfg == 0,
            r.estat == 0,
            r.era == 0,
            r.badv == 0,
    {
        HypervisorCpuState {
            gprs: GeneralPurposeRegisters::default(),
            crmd: 0,
            prmd: 0,
            euen: 0,
            ecfg: 0,
            estat: 0,
            era: 0,
            badv: 0,
        }
    }
}

/// Guest GPR and CSR state which must be saved/restored when exiting/entering virtualization.
#[derive(Debug, Clone)]
pub struct GuestCpuState {
    /// General-purpose registers.
    pub gprs: GeneralPurposeRegisters,
    /// Current mode.
    pub crmd: usize,
    /// Previous mode.
    pub prmd: usize,
    /// Extended unit enable.
    pub euen: usize,
    /// Exception configuration.
    pub ecfg: usize,
    /// Exception status.
    pub estat: usize,
    /// Exception return address.
    pub era: usize,
    /// Bad virtual address.
    pub badv: usize,
}

impl GuestCpuState {
    /// Every control and status register is zero.
    pub open spec fn csrs_reset(&self) -> bool {
        &&& self.crmd == 0
        &&& self.prmd == 0
        &&& self.euen == 0
        &&& self.ecfg == 0
        &&& self.estat == 0
        &&& self.era == 0
        &&& self.badv == 0
    }

    /// Every register is zero.
    pub open spec fn is_reset(&self) -> bool {
        &&& self.gprs@ == zero_words()
        &&& self.crmd == 0
        &&& self.prmd == 0
        &&& self.euen == 0
        &&& self.ecfg == 0
        &&& self.estat == 0
        &&& self.era == 0
        &&& self.badv == 0
    }
}

impl Default for GuestCpuState {
    fn default() -> (r: Self)
        ensures
            r.is_reset(),
            r.crmd == 0,
            r.prmd == 0,
            r.euen == 0,
            r.ecfg == 0,
            r.estat == 0,
            r.era == 0,
            r.badv == 0,
    {
        GuestCpuState {
            gprs: GeneralPurposeRegisters::default(),
            crmd: 0,
            prmd: 0,
            euen: 0,
            ecfg: 0,
            estat: 0,
            era: 0,
            badv: 0,
        }
    }
}

/// The CSRs that are only in effect when virtualization is enabled and must be saved and
/// restored whenever we switch between VMs.
#[derive(Debug, Clone)]
pub struct GuestVsCsrs {
    /// Guest configuration.
    pub gcfg: usize,
    /// Guest status.
    pub gstat: usize,
    /// Guest interrupt control.
    pub gintc: usize,
    /// Guest TLB control.
    pub gtlbc: usize,
    /// Guest counter control.
    pub gcntc: usize,
}

impl GuestVsCsrs {
    /// Every register is zero.
    pub open spec fn is_reset(&self) -> bool {
        &&& self.gcfg == 0
        &&& self.gstat == 0
        &&& self.gintc == 0
        &&& self.gtlbc == 0
        &&& self.gcntc == 0
    }
}

impl Default for GuestVsCsrs {
    fn default() -> (r: Self)
        ensures
            r.is_reset(),
            r.gcfg == 0,
            r.gstat == 0,
            r.gintc == 0,
            r.gtlbc == 0,
            r.gcntc == 0,
    {
        GuestVsCsrs {
            gcfg: 0,
            gstat: 0,
            gintc: 0,
            gtlbc: 0,
            gcntc: 0,
        }
    }
}

/// Virtualized host-level CSRs used for guest virtualization.
#[derive(Debug, Clone)]
pub struct GuestVirtualHsCsrs {
    /// Hypervisor configuration.
    pub hcfg: usize,
    /// Hypervisor guest interrupt control.
    pub hgintc: usize,
    /// Hypervisor guest address translation (the nested page-table root).
    pub hgatp: usize,
}

impl GuestVirtualHsCsrs {
    /// Every register is zero.
    pub open spec fn is_reset(&self) -> bool {
        &&& self.hcfg == 0
        &&& self.hgintc == 0
        &&& self.hgatp == 0
    }
}

impl Default for GuestVirtualHsCsrs {
    fn default() -> (r: Self)
        ensures
            r.is_reset(),
            r.hcfg == 0,
            r.hgintc == 0,
            r.hgatp == 0,
    {
        GuestVirtualHsCsrs {
            hcfg: 0,
            hgintc: 0,
            hgatp: 0,
        }
    }
}

/// CSRs written on an exit from virtualization that are used by the hypervisor to determine the cause
/// of the trap.
#[derive(Debug, Clone)]
pub struct VmCpuTrapState {
    /// Exception status.
    pub estat: usize,
    /// Exception return address.
    pub era: usize,
    /// Bad virtual address.
    pub badv: usize,
    /// Machine error record address.
    pub merrera: usize,
}

impl VmCpuTrapState {
    /// Every register is zero.
    pub open spec fn is_reset(&self) -> bool {
        &&& self.estat == 0
        &&& self.era == 0
        &&& self.badv == 0
        &&& self.merrera == 0
    }
}

impl Default for VmCpuTrapState {
    fn default() -> (r: Self)
        ensures
            r.is_reset(),
            r.estat == 0,
            r.era == 0,
            r.badv == 0,
            r.merrera == 0,
    {
        VmCpuTrapState {
            estat: 0,
            era: 0,
            badv: 0,
            merrera: 0,
        }
    }
}

/// (v)CPU register state that must be saved or restored when entering/exiting a VM or switching
/// between VMs.
#[derive(Debug, Clone)]
pub struct VmCpuRegisters {
    /// CPU state that's shared between the hypervisor's and the guest's execution environment.
    /// Saved/restored when entering/exiting a VM.
    pub hyp_regs: HypervisorCpuState,
    /// The guest's side of that shared state.
    pub guest_regs: GuestCpuState,
    /// CPU state that only applies when virtualization is on. Saved/restored on activation of
    /// the vCPU.
    pub vs_csrs: GuestVsCsrs,
    /// Virtualized host-level CPU state.
    pub virtual_hs_csrs: GuestVirtualHsCsrs,
    /// Read on VM exit.
    pub trap_csrs: VmCpuTrapState,
}

impl VmCpuRegisters {
    /// Every register of every group is zero.
    pub open spec fn is_reset(&self) -> bool {
        &&& self.hyp_regs.is_reset()
        &&& self.guest_regs.is_reset()
        &&& self.vs_csrs.is_reset()
        &&& self.virtual_hs_csrs.is_reset()
        &&& self.trap_csrs.is_reset()
    }
}

/// A reset register state reads 0 in every register of every group.
pub proof fn lemma_reset_is_zero(regs: VmCpuRegisters, i: int)
    requires
        regs.is_reset(),
        0 <= i < GPR_COUNT,
    ensures
        regs.hyp_regs.gprs@[i] == 0,
        regs.hyp_regs.crmd == 0 && regs.hyp_regs.prmd == 0 && regs.hyp_regs.euen == 0,
        regs.hyp_regs.ecfg == 0 && regs.hyp_regs.estat == 0 && regs.hyp_regs.era == 0,
        regs.hyp_regs.badv == 0,
        regs.guest_regs.gprs@[i] == 0,
        regs.guest_regs.crmd == 0 && regs.guest_regs.prmd == 0 && regs.guest_regs.euen == 0,
        regs.guest_regs.ecfg == 0 && regs.guest_regs.estat == 0 && regs.guest_regs.era == 0,
        regs.guest_regs.badv == 0,
        regs.vs_csrs.gcfg == 0 && regs.vs_csrs.gstat == 0 && regs.vs_csrs.gintc == 0,
        regs.vs_csrs.gtlbc == 0 && regs.vs_csrs.gcntc == 0,
        regs.virtual_hs_csrs.hcfg == 0 && regs.virtual_hs_csrs.hgintc == 0,
        regs.virtual_hs_csrs.hgatp == 0,
        regs.trap_csrs.estat == 0 && regs.trap_csrs.era == 0 && regs.trap_csrs.badv == 0,
        regs.trap_csrs.merrera == 0,
{
    lemma_zero_words();
}

/// A guest state whose control and status registers are reset reads 0 in each of them.
pub proof fn lemma_guest_csrs_reset_is_zero(state: GuestCpuState)
    requires
        state.csrs_reset(),
    ensures
        state.crmd == 0 && state.prmd == 0 && state.euen == 0 && state.ecfg == 0,
        state.estat == 0 && state.era == 0 && state.badv == 0,
{
}

impl Default for VmCpuRegisters {
    fn default() -> (r: Self)
        ensures
            r.is_reset(),
    {
        VmCpuRegisters {
            hyp_regs: HypervisorCpuState::default(),
            guest_regs: GuestCpuState::default(),
            vs_csrs: GuestVsCsrs::default(),
            virtual_hs_csrs: GuestVirtualHsCsrs::default(),
            trap_csrs: VmCpuTrapState::default(),
        }
    }
}

} // verus!
