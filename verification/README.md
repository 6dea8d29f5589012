# sideblinder

A bridge for the Microsoft Sidewinder Force Feedback 2 joystick: it reads the
physical stick, maps axes, buttons and the hat through a TOML configuration,
feeds a virtual HID device, and forwards force-feedback reports from the
virtual device's driver back to the stick.  A diagnostic tool shows live
input, records and replays captures, and calibrates the axes.

## Layout

- `src/` — the library, verified with Verus: HID input parsing and smoothing,
  force-feedback report construction, the driver's report queues, request
  dispatch and descriptors, the GUI wire protocol, the capture file format,
  button / hat / layer mapping, configuration validation and its report, the
  bridge loops' decisions, the calibration wizard's steps, the diagnostic
  report, raw hex dump and status text, and in-place TOML edits of the config
  file (through `toml_edit`).
- `tests/` — tests of the library.
- `app/` — the command-line front end: terminal UI and wizard screens, config
  loading and hot reload, file I/O, the service loops, and the axis shaping
  that works on floating point.
