# starfive2_net

Driver logic for the Ethernet controller (Synopsys DesignWare GMAC) of the
StarFive VisionFive 2 board, verified with Verus.

- `src/` is the verified library: descriptor formats and rings (`rings`), the
  descriptor table model (`dma`), the bring-up programme, receive and transmit
  paths, the MDIO write protocol and the MAC enable update (`driver`), and the
  list of hardware operations the driver hands to its caller (`ops`).
- `app/` carries those operations out on real hardware: register reads and
  writes, cache flushes, and keeping descriptor memory and the library's
  tables in step.
- `tests/` exercises the library on concrete values.
