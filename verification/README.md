# psx_core

Core of a PlayStation emulator, written in Verus: the R3000 CPU (instruction
decoding and execution, coprocessor 0 exceptions, the GTE), the system bus and
its memory map, the interrupt controller, the pad/memory-card port and the GPU
(GP0/GP1 command processing, GPUREAD, VRAM copies, the CRTC timing events).
Every function in `src/` carries a contract that Verus proves.

Layout:

- `src/` — the verified library. `r3000/` holds the CPU, `system/` the bus and
  the peripherals, `system/gpu/` the graphics processor. Rendering requests are
  queued as plain values (`BackendRequest`) for a host renderer to perform.
- `tests/` — tests on concrete programs and command streams.
- `app/` — the host side that Verus does not see: the timing loops driven by
  floating-point clock rates, logging, and the floating-point coordinate
  helpers a renderer needs.

The `lru`, `hashbrown`, `capstone` and
`ansi_term` crates are called from `src/` through small trusted wrappers whose
contracts are stated next to them.
