# tps546

A driver for the Texas Instruments TPS546D24A stackable PMBus buck
converter, in two parts.

- `src/` is a library verified with Verus. It models every configuration
  and status register as typed fields, decodes them from and encodes them to
  raw bus values, and proves the round trips. It also holds the driver's
  state decisions (the cached VOUT_MODE exponent), the manufacturer command
  codes, and the fitting of a block read to a register's fixed size.
- `app/` is the async driver `Tps546`, built on `pmbus-adapter` and
  `embedded-hal-async`. It performs the bus transactions and the
  floating-point conversions of the LINEAR11 and ULINEAR16 formats, and
  hands the library plain values.

The tests under `tests/` exercise the library with concrete register values.
