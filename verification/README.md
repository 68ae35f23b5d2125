# GSE integrated board

Control logic of a ground-support-equipment board, verified with Verus.

- `src/` is the library: everything the board decides, as functions and state machines on plain
  values. `board.rs` holds the state that the tasks share, `control.rs` the output interlock,
  `servo_control.rs` the scheduling of valve commands, `krs_servo.rs` the protocol of the servo,
  `can/` the frames, and `tasks/` one module per task. `servo_test.rs` and `can_fire.rs` are bench
  tests of the servo and of the ignition output. The modules that end in `_laws` state what
  holds over all events.
- `app/` is the firmware for the ESP32: pins, buses, clocks and tasks, which carry out what the
  library decides.
- `tests/` runs the library on concrete values.

## Time

Points in time are ticks of a clock of one megahertz; the servo line counts microseconds.

## Trusted parts

Three functions of `embassy-time` (spans and milliseconds), `Signal` of `embassy-sync`, and the
range check of standard identifiers in `embedded-can` are called through small functions whose
contracts are stated next to them.
