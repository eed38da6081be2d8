# bcm283x

Verified drivers and board support for the Broadcom BCM283x (Raspberry Pi
Zero 2W and Pi 0-3): the V3D 3D engine, the HVS display compositor with its
HDMI transmitter, the VideoCore firmware mailbox, and the platform layer of
the Zero 2W (early page table, interrupt controllers, PL011 console, generic
timer, watchdog, memory layout).

The library never touches hardware itself. Every routine that programs a
block returns the ordered register accesses it needs (`regops::RegOp`), or
takes the register values it has to decide on as arguments; contracts state
those sequences and decisions exactly over spec functions, and proof
functions state the properties that span calls (the render list's shape and
length, the display list decoding back to the framebuffer, HDMI enable and
disable, the mailbox request/reply round trip, the interrupt scan reporting
exactly the pending interrupts, the linear mapping round trip, and more).

Layout:

- `src/` — the library, verified by Verus:
  - `regops` — register accesses as data, and the register-block model;
  - `v3d` — control-list builders (`cl`), register map, and the V3D job
    state machine (`V3dCore`);
  - `display` — HVS display lists and channel setup, HDMI timing, and the
    display bring-up / flush sequence (`HvsDisplay`);
  - `mailbox` — firmware mailbox framing, property requests, cache-line
    ranges;
  - `platform` — the Zero 2W board layer.
- `tests/` — executable tests of the library on concrete values.
- `app/` — the glue that performs the accesses (volatile MMIO, cache
  maintenance, the mailbox buffer), the driver-framework trait impls, the
  `axplat` platform interface for bare-metal AArch64, and the on-board
  bring-up test run under Linux.
