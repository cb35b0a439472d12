# rgibberlink-core

A verified library for a short- and long-range device-pairing and messaging
link that couples an ultrasonic channel with a laser (or QR) channel. The
library is written in Verus: every executable function carries a contract,
and Verus proves each body against it.

## Layout

- `src/` — the verified library.
  - `protocol.rs`: the handshake state machine, long-range coupled
    validation, fast sync packets with CRC-32, performance adjustments.
  - `channel_validator.rs`: temporal coupling, cross-channel
    authentication, anti-replay and coupling quality over two channels.
  - `laser.rs`, `laser/transmission.rs`, `laser/control.rs`: eye-safety
    limits, power profiles by range, Reed-Solomon framing and the bit-level
    plans of each modulation scheme.
  - `optical_ecc.rs`: adaptive error correction driven by error patterns.
  - `fallback.rs`: channel health, fallback to short range, session
    snapshots and recovery.
  - `security.rs`, `audit.rs`: PIN lockout, permissions, rate limits, key
    derivation, the audit trail with retention, compliance rules and reports.
  - `hierarchical.rs`, `messaging.rs`, `multimodal.rs`, `gibberdot.rs`,
    `mission_transfer.rs`, `range_detector.rs`, `ultrasonic_beam.rs`,
    `audio.rs`, `performance_monitor.rs`, `crypto.rs`.
- `tests/` — tests that run the library with its outside crates linked.
- `app/` — the program around the library: JSON wire forms, floating-point
  audio and alignment, timed benchmarks and the fallback monitoring loops.

Quantities that are real-valued in the field (power, distance, signal
strength, time) are integers in fixed units: microwatts, centimeters,
per-mille and milliseconds. The current time is an argument of the
functions that need it.
