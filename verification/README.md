# pi_touchscreen_control

Controls the backlight of the Raspberry Pi 7" touchscreen: it dims the backlight
after a period of inactivity and offers the backlight and the dimming settings to
Home Assistant over MQTT.

- `src/` is the verified library: reading the YAML configuration (`config`, with
  the parser behind `yaml`), the shared `state`, the dimmer's decisions, the
  sysfs writes it makes and the meaning of what it reads (`dimmer`), decimal text (`number`), the MQTT topics,
  publications and command handling (`mqtt`), and the Home Assistant discovery
  document with its JSON text through `serde_json` (`discovery`).
- `app/` is the program around it: file and device I/O (the sysfs writes and
  reads themselves), threads, the MQTT client, and logging.
