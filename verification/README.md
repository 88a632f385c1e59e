# ble_to_mqtt

A bridge that scans for Bluetooth Low Energy events and publishes each one,
as JSON, to an MQTT broker or a Memphis station.

- `src/` is the library, verified with Verus: configuration loading and
  parsing, the choice of broker, the translation of an adapter event into the
  published message and its topic, the MQTT connection settings and the retry
  policy of publishing.
- `app/` is the program around it: reading the environment, talking to the
  Bluetooth adapter and to the brokers, JSON serialisation and the event loop.
- `tests/` exercises the library on concrete values.
