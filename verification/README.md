# supernovas (verified core)

Safe Rust bindings to the SuperNOVAS astrometry library are mostly a thin
layer over its C functions and floating-point types. This crate holds the
parts of that layer that decide something, proved with Verus:

- `error`: the error type, its messages, the provider-error slot that
  carries the latest C or callback error description, and the decimal
  rendering of numeric status codes.
- `debug`, `timescale`, `frame`, `apparent`, `eop`, `source`,
  `refraction`: the selector enums and their exact numbering in the C
  enums, with round-trip laws, plus the filter that picks error
  descriptions out of the C error reporter, the ecliptic-conversion
  routing of reference systems and the equinox an apparent place carries.
- `observer`: the observer places of a frame and the guards of the
  operations that need a surface site or a local sidereal time.
- `cstring`: the NUL-terminated and fixed-size name buffers handed to C,
  and reading a name back from such a buffer.
- `ephemeris`: the provider trait, the `Ephemeris` installer, the
  fill-once provider slot, what an ANISE load outcome becomes, and the
  decisions of the ephemeris callbacks.
- `epoch`: the integer-nanosecond bridge between TT Julian dates and
  hifitime epochs.

`app/` holds the process-level glue: thread-local error slot, the
`thiserror` form of the error type, the C callback registration, the
ANISE file loads (reading and parsing a kernel file is I/O whose parser
need not return on a malformed file) and the floating-point steps of the
time bridge.
