# rfe

A library for RF Explorer spectrum analyzers and signal generators, written in
Verus: the message grammar, the command encoders and the rules that pick
models, baud rates, ports and settings are proved against their contracts.

- `src/` is the verified library. `parsers` holds the grammar that every
  message follows (a prefix, fixed-width fields separated by commas, an
  optional line end); each message type states in a spec function which bytes
  it accepts and what it reads from them. `command` and
  `signal_generator::Command` encode commands, with laws on their size byte.
  `signal_generator::MessageCache` and `spectrum_analyzer::MessageCache` hold
  the latest message of each kind; `message::next_read_step` decides what the
  reading loop does with each line.
- `app/` runs what the library decides: it opens serial ports, reads lines on
  a background thread, wakes the threads that wait for messages, and handles
  the expansion module's powers, which are floating-point numbers.
- `tests/` runs the library on concrete messages and commands.
