# hikami_eval

The verified core of the hikami evaluation programs: bare-metal RISC-V guests that measure
the cost of emulating a Zbs instruction and the latency of timer and external interrupts.

* `src/` (Verus): what the programs compute and decide. SBI request layouts and console
  output (`sbi`, `console`), the clocks (`timer`), the PLIC register layout (`plic`), the
  interrupt handlers' bookkeeping and result summaries (`external_interrupt`,
  `timer_interrupt`, `stats`), the latency range and run totals of the emulation benchmark
  (`emulation`), the schedule of the mixed-ratio benchmark as a step function
  (`mixed_ratio`), a specification of the instruction streams that the benchmark's
  assembly macros write out (`workload`), and the Zbs bit-set demo (`zbs`).
* `app/` (plain Rust): the hart's side, with inline assembly, `ecall`, device-register
  accesses, CSR writes through the `riscv` crate, and printing.
* `tests/`: the library on concrete values.
