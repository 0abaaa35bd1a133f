//! Verified register model of a LoongArch virtual CPU.
pub mod bits;
pub mod register;
pub mod regs;
pub mod vcpu;
pub mod percpu;
pub mod detect;

pub use self::percpu::LoongArchPerCpu;
pub use self::vcpu::LoongArchVCpu;

use vstd::prelude::*;

verus! {

/// Extension ID for hypercall, defined by ourselves.
/// `0x4C`, `0x41`, `0x56` is "LAV" in ASCII, short for "LoongArch VCPU".
pub const EID_LAV: usize = 0x4C4156;

/// Configuration for creating a new `LoongArchVCpu`.
#[derive(Clone, Debug)]
pub struct LoongArchVCpuCreateConfig {
    /// The ID of the vCPU, default to `0`.
    pub hart_id: usize,
    /// The guest-physical address of the device tree blob.
    /// Default to `0x8000_0000`.
    pub dtb_addr: usize,
}

impl Default for LoongArchVCpuCreateConfig {
    fn default() -> (r: Self)
        ensures
            r.hart_id == 0,
            r.dtb_addr == 0x8000_0000,
    {
        Self { hart_id: 0, dtb_addr: 0x8000_0000 }
    }
}

} // verus!
