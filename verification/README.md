# cosmic_kernel

The core of the CosmicOS kernel as a verified library, and the program that
runs it on the machine.

- `src/` is the library, verified with Verus:
  - `gfx`: colours, the bitmap font, and the software renderer. The
    renderer draws into its own grid of packed pixel words; every drawing
    operation is specified as painting a region of that grid (`gfx::canvas`).
  - `input`: the PS/2 scan code decoder, modifier keys and the event queue.
  - `ui`: the boot, login and desktop screens (each specified as the picture
    it draws), the login and desktop input handling, and the interface state
    machine (boot, then login, then desktop).
  - `vfs`: the in-memory file system tree.
  - `memory`: where the kernel heap goes in the boot loader's memory map.
  - `interrupts`: interrupt vectors and the 8259 PIC command sequences.
  - `panic`: the kernel panic screen.
- `app/` starts the machine: boot loader requests, GDT, IDT and PIC, the
  heap allocator, copying the renderer's pixels to video memory, and the
  main loop that feeds keyboard events to the interface.
- `tests/` exercises the library on concrete values.

Text is drawn with the glyph table given to `Font::new`; `Font::blank()`
draws every character blank.
