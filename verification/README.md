# sdio

Protocol logic for SD memory cards, eMMC devices and SDIO cards, verified
with Verus.

- `src/` is the verified library: command encodings, register decoders,
  the SPI framing (CRC7, response packing, token waits), block addressing,
  and the initialization sequences of SD, eMMC and SDIO cards written as
  state machines. Each machine takes what the bus reported and returns the
  next bus request or its outcome; public proof functions state what every
  step keeps (for example, that the bus is never configured beyond what the
  host supports).
- `app/` drives those machines on an async host bus (`MmcBus`), implements
  `block_device_driver::BlockDevice`, the SPI host on `embedded-hal`, and
  the debug formatting of registers.
- `tests/` exercises the library, including complete initialization runs
  against simulated cards.
