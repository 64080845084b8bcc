# prototyper_trap

The trap-handling and boot decisions of a RISC-V machine-mode SBI firmware,
verified with Verus.

- `src/` is the verified library: boot-hart election and boot information
  (`boot`), the saved supervisor context (`context`), machine-software
  interrupts and IPIs (`msoft`), remote fence queues and fence planning
  (`rfence`), the SBI call path (`ecall`, `sbi`), and illegal-instruction
  emulation and delegation (`illegal`).
- `app/` is the code around it: the assembly entry points and trap vectors
  (built for RISC-V only), and the register writes, fences and console I/O
  that carry out the library's decisions. The library uses `std` (its
  queues are `Vec`s), so `app/` does too; it holds the shared per-hart
  state behind `std` locks.
- `tests/` runs the library on concrete values.
