# star_adventurer

An ASCOM Alpaca driver for the Sky-Watcher Star Adventurer mount, whose
decision logic is verified with Verus.

- `src/` is the verified library: the states of the mount and of its motor,
  the operations (tracking, manual moves, slews, parking, guide pulses) and
  the controller commands each one sends, the choice of guide speed, step
  periods of the tracking rates, which operation may start while another
  runs, the errors reported to Alpaca clients, and the parsing of the
  driver's own actions and configuration values. Rates are held as integers
  in picodegrees per second.
- `app/` is the server around it: the configuration file, serial I/O with the
  motor controller, the async runner that carries out the library's steps,
  the coordinate arithmetic (floating point) and the Alpaca interfaces.
- `tests/` exercises the library on concrete values.
