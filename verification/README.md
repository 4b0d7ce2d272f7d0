# core_engine

A deterministic Hebrew-calendar and zmanim core: the Hebrew and proleptic Gregorian calendars on
Rata Die day numbers, festivals and day classification, molad and tekufa arithmetic, Daf Yomi,
yahrzeit and Israeli national days, the Kiddush Levana window, tal-u-matar, and the intake checks
of the parameter vector and horizon profile.

## Layout

- `src/` — the verified library (Verus). Every public function states its result in its
  contract; the laws of the calendar (permitted year lengths, the Lo ADU Rosh rule, round trips
  between day numbers and dates, the exact synodic interval of the molad, the tekufa spacing, the
  Daf Yomi cycle, the well-formed Kiddush Levana window, …) are public proof functions.
  - `calendar.rs` and `calendar/` — Gregorian and Hebrew calendars, festivals, day classes,
    molad, yahrzeit, omer, Israeli days; the proofs of the calendar laws.
  - `tekufa.rs`, `daf_yomi.rs`, `kiddush_levana.rs`, `couplings.rs` — tekufot, Daf Yomi, the
    Kiddush Levana window and night bracket, tal-u-matar and the day-roll decision.
  - `params.rs`, `optics.rs`, `events.rs`, `wire.rs` — the knobs, and the checks and resolution
    of a decoded parameter vector and horizon profile.
- `tests/` — tests of the library on concrete values.
- `app/` — the floating-point solar and lunar geometry, the reads off the altitude curves, the
  projection of exact chalakim counts to absolute instants, the CBOR decoding (`minicbor`), and
  the C-ABI probe. It calls the library for every decision and every piece of calendar arithmetic.
