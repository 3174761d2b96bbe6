# nanod

Verified core of the NanoD haptic knob and of its host tool, written in
Verus.

- `src/` is the library, every function proved against its contract, except
  the small `external_body` wrappers around `heapless` and `image` calls,
  whose contracts state what those crates' sources show of them (for the
  image resize: when it succeeds and how many bytes it gives, not the
  resampled pixel values):
  - `led`: ring pointer and button LED colouring, brightness scaling;
  - `hmi`: button debouncing and knob value selection;
  - `haptic`: detent positions, limits and the events a crossing fires;
  - `profile`: the bounded profile store;
  - `protocol`: commands, events and the routing of a decoded command line;
  - `firmware`: the decisions of the device's threads (command dispatch,
    LED frames, display state and album art buffers, motor loop schedule,
    encoder turn counting, LED strip framing, base64 art chunks);
  - `tool`: firmware image validation, partition table, port selection,
    album art conversion, media player scripts and the hardware test
    runner's verdicts;
  - `bounded`, `text`, `strings`: fixed-capacity event lists and string
    helpers with exact contracts.
- `tests/` exercises the library on concrete values.
- `app/` is the `nanod` command-line tool: argument parsing, serial and
  flashing I/O, JSON (de)serialisation, and the floating-point motor and
  haptic control. Built for the ESP32-S3 (`target_os = "espidf"`) it is
  the knob's firmware instead: the four threads (serial commands, buttons
  and LEDs, display, motor) doing the hardware calls around the library's
  decisions.
