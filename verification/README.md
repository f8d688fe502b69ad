# sweph

A safe API over the Swiss Ephemeris C library, with its logic verified by
Verus.

- `src/` is the verified library: the request checks and argument codes for
  each C call (`position`, `houses`, `eclipse`, `sidereal`, `flags`), the
  decoding of what the C library returns (`body`, `eclipse`, `error`), and the
  integer calendar arithmetic of Julian day numbers with its laws
  (`calendar`). `codes` holds the numeric constants of the C interface.
- `app/` is the edge around it: the raw C bindings, the process-wide lock that
  serializes calls into the non-thread-safe C library, and the
  floating-point values (positions, house cusps, Julian days with a time of
  day).
- `tests/` runs the library on concrete values.
