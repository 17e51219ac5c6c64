# COSEM interface classes

A verified library of DLMS/COSEM interface classes (clock, registers,
limiter, disconnect control, loggers, communication setups and more).

- `src/` is the library, written in Verus.  `cosem.rs` holds the shared
  value model: OBIS codes, the `DlmsData` values that attributes are read
  and written as, their mathematical view `DataView`, and the COSEM
  date-time.  Each other module is one interface class: its attributes as a
  view struct, `attribute_data` / `apply_attribute` (or byte-level
  `attribute_to_bytes` / `attribute_from_bytes` where the class fixes the
  wire form itself), its methods, and the laws proved of them.
- `tests/` exercises the library on concrete values.
- `app/` puts attribute values through the A-XDR codec and computes the
  floating-point harmonic distortion figures.
