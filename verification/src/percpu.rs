//! Per-CPU virtualization state, and the CSR values that set a core up for guests.
use core::marker::PhantomData;
use vstd::prelude::*;

verus! {

/// ECFG value that enables the timer and inter-processor interrupts.
pub const ECFG_TIMER_IPI: usize = (1 << 12) | (1 << 13);

/// ECFG value that enables external interrupts.
pub const ECFG_EXTERNAL: usize = 0x800;

/// ESTAT value with every exception status cleared.
pub const ESTAT_CLEAR: usize = 0;

/// TICLR value that clears the timer interrupt.
pub const TICLR_CLEAR: usize = 1;

/// PRMD value with the previous privilege level 3, where the guest runs.
pub const PRMD_GUEST: usize = 0b11 << 3;

/// Why the virtualization hardware could not be turned on.
#[derive(Debug, Clone, Copy, PartialEq, Eq, Structural)]
pub enum HardwareError {
    /// The core lacks the hypervisor extension.
    Unsupported,
}

/// LoongArch per-CPU state.
pub struct LoongArchPerCpu<H> {
    _marker: PhantomData<H>,
}

impl<H> LoongArchPerCpu<H> {
    /// The per-CPU state of the core `_cpu_id`, once its CSRs are set up.
    pub fn new(_cpu_id: usize) -> (r: Self) {
        Self { _marker: PhantomData }
    }

    /// Turns virtualization on, which succeeds exactly when the core has the hypervisor
    /// extension.
    pub fn hardware_enable(&mut self, has_hardware_support: bool) -> (r: Result<(), HardwareError>)
        ensures
            r == if has_hardware_support {
                Ok::<(), HardwareError>(())
            } else {
                Err(HardwareError::Unsupported)
            },
    {
        if has_hardware_support {
            Ok(())
        } else {
            Err(HardwareError::Unsupported)
        }
    }
}

} // verus!
