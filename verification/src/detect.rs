//! Detection of the hypervisor extension by a trap-and-return probe: the probe reads the
//! `hgatp` CSR with `$tp` holding 0; if the read traps, the trap handler stores the ESTAT
//! value in `$tp` and skips the faulting instruction.
use crate::register::estat::{exception_of_code, Estat, Exception};
use crate::bits;
use vstd::prelude::*;

verus! {

/// Value of the ESTAT cause field for an illegal-privileged-instruction exception.
pub const CAUSE_IPE: usize = 15;

/// The probe trapped: `$tp` holds the ESTAT value that the trap handler stored there,
/// whose cause field is the illegal-privileged-instruction code. A probe that does not trap
/// leaves `$tp` at 0.
pub open spec fn probe_trapped(probe_tp: usize) -> bool {
    bits::field(probe_tp, 0, 4) == CAUSE_IPE
}

/// Whether the core has the hypervisor extension, from the value of `$tp` after the probe:
/// it has it exactly when reading `hgatp` did not trap.
pub fn detect_h_extension(probe_tp: usize) -> (r: bool)
    ensures
        r == !probe_trapped(probe_tp),
{
    bits::get_bits(probe_tp, 0..=4) != CAUSE_IPE
}

/// A probe that does not trap leaves `$tp` at 0 and reports the extension; a probe that
/// traps leaves there the value `detect_trap_outcome` hands back, and reports no extension.
pub proof fn lemma_probe_outcome(estat: Estat, era: usize)
    requires
        bits::field(estat@, 0, 4) == CAUSE_IPE,
    ensures
        !probe_trapped(0),
        probe_trapped(estat@),
{
    assert((0usize >> 0usize) & !(!0usize << 5usize) == 0) by (bit_vector);
}

/// What the probe's trap handler does with the trap state: the new `$tp` (the ESTAT
/// value) and the new exception return address (past the four-byte faulting instruction).
/// Only the illegal-privileged-instruction exception is expected there.
pub fn detect_trap_outcome(estat: &Estat, era: usize) -> (r: (usize, usize))
    requires
        bits::field(estat@, 0, 4) == CAUSE_IPE,
    ensures
        r.0 == estat@,
        r.1 == vstd::wrapping::usize_specs::wrapping_add(era, 4),
{
    let tp = estat.bits();
    match estat.cause() {
        Exception::IPE => (tp, era.wrapping_add(4)),
        _ => {
            proof {
                assert(exception_of_code(CAUSE_IPE) == Exception::IPE);
                assert(false);
            }
            (tp, era)
        },
    }
}

} // verus!
