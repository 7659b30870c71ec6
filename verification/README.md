# stellavue

Control logic of a motorised star tracker (ESP32-C3, stepper-driven threaded
rod, websocket remote control), written in Verus and proved against its
contracts.

- `src/` — the verified library:
  - `web::protocol`: the four-byte big-endian websocket frames; decoding of
    command words (`[28 bit values][4 bit action]`) and encoding of responses,
    with round-trip laws for both directions;
  - `system`: the operating modes and their permitted transitions, which
    incoming commands run in each mode, and the event type;
  - `stepper`: step counting in turns and offsets, the tracking speed profile,
    and the decisions of the stepper's commands and step timer as lists of
    hardware actions;
  - `camera`: the decisions of automatic capturing.
- `app/` — the firmware around it: ESP-IDF peripherals, timers, event loop,
  Wi-Fi access point, HTTP/websocket server, and the JSON speed profile.
- `tests/` — tests of the library on concrete values.
