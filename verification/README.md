# robot_harness

Hardware bring-up harness for an ESP32-S3 robot (OLED, two touch inputs, an
H-bridge with two motors, I2S microphone and speaker placeholders), with a
Wi-Fi control panel served from the board and a localhost bench panel that
serves the same API from a mock robot.

## Layout

- `src/` is the verified library (Verus). It holds the harness's decisions
  and state: the harness state machine and its mode/emotion, the panel's
  state store (test gating, inspection readiness, the bounded telemetry log,
  the command queue), motion and H-bridge patterns, status-screen layout and
  word wrapping, telemetry records, the bench panel's runtime, and the
  bench's HTTP request parsing and routing. Each public function states what
  it returns or changes, except the default methods of the port traits
  (motion, touch, telemetry): those hand work to hardware the library has no
  model of, and what they hand over is chosen by verified functions
  (`port_call`, the telemetry record builders). The public proof functions
  state the laws that
  span several calls (readiness carried by every update, the telemetry ring
  keeping the newest entries, a fault locking tests and motion, stop never
  being refused, the panel showing the levels the driver sets, wrapping
  keeping every word, and more).
- `tests/` runs the library on concrete values.
- `app/` is the program around it: ESP-IDF peripherals, GPIO, I2C and the
  SSD1306 drawing, Wi-Fi and the HTTP server, JSON, the delays of the main
  loop, and the tokio server of the bench panel. It hands the library plain
  values and carries out what the library decides.
