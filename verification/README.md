# gbemu

A Game Boy Color emulator core whose behaviour is stated in Verus contracts and proved.

- `src/` is the verified library: the CPU (micro-operation queue, decoder, ALU, registers,
  interrupts), the memory map (cartridge controllers MBC1, MBC2 and MBC3 with its clock,
  work and video RAM banks, OAM, colour palette RAM, high RAM), the timer, the DMA unit,
  the LCD and audio controllers, colours and compatibility palettes.
- `src/**/law_*` proof functions state properties that span calls: what a memory reads
  back after a write, bank switching, PUSH then POP, CALL then RET, ADD/SUB then DAA on
  BCD operands, STAT interrupt blocking, the three DMA transfers and HBlank cancellation,
  ALU round trips, colour conversions and the clock's duration arithmetic.
- `tests/` runs the library on concrete values.
- `app/` is the browser front end (Web Audio, canvas, serialization of memory contents,
  the JavaScript-facing emulator object); it is ordinary Rust and is not verified.
