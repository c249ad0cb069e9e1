# light_control

A controller for four Zigbee lights driven over MQTT by two wireless switches,
with a morning alarm that blinks the lights and a process pair that restarts
the program when it dies.

- `src/` is the verified library:
  - `buttons`: the switches' button actions and their names;
  - `lights`: topics, light states, light commands and their JSON payloads;
  - `commands`: what each switch's buttons ask for, and where commands go;
  - `controller`: the selected light and the messages published per command;
  - `alarm`: the alarm window and the alarm's round-by-round decision;
  - `config`: the alarm time read from the TOML configuration;
  - `heartbeat`: the process pair's heartbeat and the successor's decision;
  - `laws`: properties that relate several of the above;
  - `text`: string helpers (equality, decimal notation).
- `app/` is the program: threads, MQTT connections, sockets, the configuration
  file and the JSON decoding of switch messages.
- `tests/` runs the library on concrete values.
