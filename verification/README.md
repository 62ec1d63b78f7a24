# rp2040_badger_w

A Wi-Fi connected e-paper badge for the Pimoroni Badger 2040 W: date, local time,
two outdoor temperatures and the state of the connection on one panel.

- `src/` is the verified library: what the badge decides and computes, with
  contracts that Verus proves. `calendar` and `time_util` hold instants and dates,
  `wifi`, `ntp` and `mqtt` the network tasks, `draw` the layout and the actions of
  the panel, `badger` the badge itself, `clock` a plainer program that only shows
  the network time, `text` and `reading` numbers as text and temperatures.
- `app/` is the firmware round it: pins, drivers, sockets and timers. A task asks
  the library what to do, does it, and reports what came of it. Two computations
  on floating point numbers stand here as well: decoding the temperature in a
  message, and the text of a temperature with its limit of ten bytes.
- `tests/` runs the library on concrete values.

The library calls jiff and time for date arithmetic and time zones, and the
driver of the panel for the regions that it can refresh. What those calls are
relied on for stands in the doc comments of the functions that make them
(`time_util` and `draw`).
