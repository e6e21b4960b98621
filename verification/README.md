# pza-power-supply

Control and monitoring of laboratory power supplies over MQTT, with a
terminal interface, written in Verus.

- `src/` is the verified library: MQTT topic naming and routing
  (`topics`, `server::mqtt`, `server::instance`), the runner status
  machine, configuration rules (`server::config`), the driver factory and
  service planning (`server::drivers`, `server::services`), the terminal
  interface's state (`tui`, `server::tui`), and what the graphical pages
  show and send: the control box, the power button, the voltage and current
  setters and the MCP page (`server::gui`).
- `app/` is the program around it: command line parsing, the JSON5
  configuration file, the built-in MQTT broker, serial drivers, the MQTT
  event loops and the terminal drawing.
- `tests/` exercises the library on concrete values.
