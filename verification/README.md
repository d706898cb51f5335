# r503

Driver logic for the Grow R503 fingerprint sensor, verified with Verus.

- `src/` is the library. `bytes` and `packet` hold the wire format (big-endian
  numbers, the nine-byte header, the additive checksum); `types` the protocol's
  codes and the data the sensor reports (system parameters, search results,
  slot tables); `led` the Aura LED configurations; `driver` the session with
  the sensor as a state machine (`R503::start`, `R503::accepts`, `R503::step`)
  whose transitions are specified by `SessionView::begin` and
  `SessionView::next`; `enroll` the enrollment of a finger as a second
  state machine (`Enrollment::start`, `accepts`, `step`, specified by
  `EnrollmentView::next`); `scan` the scan for a finger as a third state machine
  (`FingerScan`) and the verdicts drawn from image collection and template
  generation; `text` number formatting; `mock` an
  in-memory serial line.
- `app/` runs the state machine over an `embedded-io-async` serial line (the
  `Sensor` trait with one async method per command) and holds the command line
  tool that enrolls and matches a finger.
- `tests/` drives sessions against the in-memory line.
