# loongarch_vcpu

A LoongArch virtual CPU for the ArceOS hypervisor, with its register model and exit
decisions verified by Verus.

- `src/` — the verified library: bit-field arithmetic on CSR values (through the
  `bit_field` crate), the CRMD/ECFG/EENTRY/ESTAT/GSTAT register values, the
  general-purpose register file and the CSR groups saved around guest execution, the
  vCPU state with its VM-exit decision, the per-CPU enable decision, and the decisions
  of the hypervisor-extension probe.
- `app/` — what needs inline assembly or the `axvcpu`/`axaddrspace`/`axerrno` crates:
  CSR reads and writes, guest entry, the trap-and-return probe, and the
  `AxArchVCpu`/`AxArchPerCpu` trait implementations, which convert between the
  library's plain values and the hypervisor's address and error types.
- `tests/` — tests of the library on concrete values.
