# multi_sgb_async

Drives Random Power single-generator boards (SiPM-based quantum random number
generators): each connected board runs its own state machine, streams seeds of
raw entropy with their health-test results, reads the on-board statistical
test FIFOs, and the data of all boards goes to one TCP client.

Layout:

- `src/` — the verified library.
  - `raplibs/` — board protocol: command codes and frames (`write_commands`,
    `ftdi_wrapper`), the writes of each board operation and the judgement of
    the board's replies (`base`, `sanity_checks`, `sha256`, `flash`), the run
    settings with their checks and packet size search (`settings`), and
    message text (`text`).
  - `streamer/` — the per-board state machine, the health tests of raw seeds
    (`global_data`) and the driver's status numbers.
  - `devices` — which boards appeared and which left since the last scan.
- `app/` — the program around it: the FTDI connection, the tokio tasks, the
  settings file, floating-point calibration, and JSON output.
- `tests/` — tests of the library.
