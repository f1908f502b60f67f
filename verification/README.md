# noelv

Register-level drivers for the GRLIB peripherals of a NOEL-V system (APBUART, GPTIMER,
GRGPIO, PLIC, AMBA plug&play records, CLINT machine timer), verified with Verus.

- `src/` is the verified library. It decides every register access: the bit layout of each
  register, which value goes to which register, how a value read is interpreted, and the
  state machines that poll hardware (UART transmit queue, plug&play record walk, busy-wait
  delay, time driver alarm). Each function states its result exactly; the `law_*` proof
  functions state the properties that span functions (enable/disable of PLIC sources,
  claim/complete, GPIO output writes, timer compare round trip, alarm never early, ...).
- `app/` performs the volatile register accesses through `derive_mmio`, the core's control
  registers through `riscv`, and holds the global state and the implementations of outside
  traits (`embedded_hal`, `embedded_io`, `log`, `embassy_time_driver`).
- `tests/` runs the library on concrete register values.
