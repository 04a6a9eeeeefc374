# flipper

Verified logic of the DRM driver for the GX graphics engine of the Nintendo
GameCube (Flipper) and Wii (Hollywood).

- `src/` — the library, verified with Verus:
  - `bytes`: big- and little-endian integer reads from byte buffers;
  - `fifo`: decoding of command FIFO streams into events (NOP, XF loads, BP
    loads with the framebuffer redirection, vertex-cache invalidation,
    triangle draws, unknown opcodes), with how the stream ended;
  - `mem`: decoding of register-file uploads (BP, CP, XF, XF registers,
    texture memory);
  - `run`: execution of a command list;
  - `setup`: the FIFO bring-up plan of register writes.
- `app/` — the kernel module around it: device probing, register mapping,
  user-memory access, logging and the ioctl entry points. It is built
  against the kernel's Rust crate, which exists only inside a kernel tree.
- `tests/` — tests of the library on concrete inputs.
