# lbl-tg-rcore-tutorial-vga

A minimal graphics component for RISC-V bare-metal kernels running on QEMU's
`virt` machine with a `ramfb` display. The display is configured through the
fw_cfg DMA interface as a 640x480 XRGB8888 linear framebuffer.

Layout:

- `src/` — the verified library: framebuffer layout arithmetic
  (`framebuffer`), the fw_cfg protocol and the ramfb probe state machine
  (`device`), big-endian and little-endian byte encodings (`bytes`), the
  one-shot initialisation state and drawing interface (`display`), and the
  demonstration picture (`pattern`). The library decides every store and
  every DMA descriptor; it performs no I/O itself.
- `app/` — the kernel around it: the global display state, volatile
  framebuffer and register stores, DMA submission and polling, and the boot
  entry that draws the demonstration picture.
- `tests/` — tests of the library on concrete values.
