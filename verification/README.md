# rustboy

A Game Boy (DMG) emulator core written in Verus. Every function of the core
carries a contract that Verus proves: the CPU instructions and their flags, the
memory map, the cartridge controllers, the timer, the picture unit and the sound
channels.

## Layout

- `src/` — the verified library.
  - `cpu.rs`, `flags.rs`, `cpu_ops.rs`, `instructions.rs` — registers, flags and
    the instruction set.
  - `execute.rs`, `step.rs` — decoding and running one instruction, interrupt
    dispatch, and the frame loop.
  - `interconnect.rs`, `mmu.rs` — the memory bus, DMA and the per-cycle tick.
  - `cartridge/`, `header.rs` — ROM-only, MBC1, MBC2, MBC3 and MBC5 cartridges
    and the cartridge header.
  - `ppu.rs` — the picture unit: modes, LY/LYC, palettes, background, window and
    sprites.
  - `timer.rs`, `joypad.rs`, `serial.rs`, `interrupts.rs` — the other
    peripherals.
  - `apu/` — the four sound channels and their sweep, envelope and length units.
  - `gameboy.rs` — loading a game and the boot ROM.
  - `laws.rs` — properties that span several operations, stated and proved.
- `tests/` — scenario tests on concrete values.
- `app/` — a headless command-line runner: reads a ROM (and optionally a boot
  ROM), runs frames, prints the serial output, dumps tiles or writes a
  screenshot.

## Scope

- There are no save states (a serialised, compressed snapshot of the whole
  machine).
- There is no windowed desktop front end and no WebAssembly front end;
  `app/` is a headless runner.
