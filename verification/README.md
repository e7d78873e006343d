# rpi-hal-embassy

[Embassy](https://embassy.dev) support for Raspberry Pi boards using the
BCM2836/BCM2837 SoC (Pi 2, Pi 3), on top of the `rpi-hal` crate, with its
decisions proved in [Verus](https://github.com/verus-lang/verus).

- `src/` is the verified library. It holds no hardware: each part is a state
  machine that names one action at a time and is told what came of it.
  - `ticks` — tick arithmetic over `embassy-time`, at the System Timer's 1 MHz.
  - `time_driver` — the timer queue, and which deadline the alarm is armed
    for.
  - `irq` — which pending interrupt lines lead to which handlers.
  - `usb` — the root port, pipes, control transfers, and bulk and interrupt
    requests of a USB host controller.
  - `wifi` — the passes of the Wi-Fi runner, its watch on the association,
    its packet queues and its report.
- `app/` performs the actions on the board: the `embassy-time` driver, the
  executor, the interrupt dispatcher, and the `embassy-usb-driver` and
  `embassy-net` adapters. It builds for ARM targets only.
- `tests/` runs the library on concrete values.

What is believed rather than proved is what the Embassy crates do when they
are called, and two functions of `core`: what a `Duration` is in microseconds,
and that a slice lies somewhere. Each such call stands behind one function
marked `#[verifier::external_body]`, whose comment says what is claimed of it.
