# mini_power_unit

Firmware logic of a small USB-PD bench power unit (ESP32-C3, AP33772S sink
controller, SSD1306 display, three keys, web UI, InfluxDB upload), written
in Verus.

- `src/` is the verified library: PDO selection and the request sequence
  that applies a voltage (`usbpd`), key debouncing and events (`keyevent`),
  line-protocol batching and upload bookkeeping (`transfer`), the HTTP API's
  PDO document and form parsing (`httpserver`), the integer and text
  decisions of the status screen (`displayctl`), main-loop decisions
  (`control`), and decimal rendering and parsing (`text`).
- `app/` is the firmware around it: peripherals, threads, HTTP and I2C I/O,
  drawing, and everything that works on floating-point readings.
- `tests/` exercises the library, including the AP33772S driver against a
  simulated chip on the I2C bus.
