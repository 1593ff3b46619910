# sds011_nostd_rs

A driver for the SDS011 air quality sensor, split in two:

- `src/` is the protocol, with machine-checked proofs: command frames and their
  checksums (`command`, `sensor`), recognising reply frames in what a serial
  read delivers and bounding the reads spent on one reply (`frame`), what each
  reply means and how it updates the driver's configuration (`sensor`), the
  multi-step `init` and `read_sample` operations as state machines
  (`procedure`), and the laws that tie these together (`laws`).
- `app/` runs that protocol over an `embedded_io_async` serial interface: it
  performs the reads, writes and flushes that the library asks for, and turns
  measurements (tenths of µg/m³) into `f32` values.
