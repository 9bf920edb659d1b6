# mqtt_web

The verified logic of a small MQTT web console, written in Verus.

- `src/` is the library. `domain` holds the broker configuration and the
  status types, `storage` the encrypted password store and the
  configuration files, `mqtt` the decisions of the two connection managers
  (event handling, connect and disconnect plans, generations), `api` the
  login and logout decisions, `mqtt_manager` the SQLite-backed
  configuration manager's settings and answers, `text` the string helpers,
  and `primitives` the trusted calls into `aes-gcm`, `base64`, `rand`,
  `uuid`, `rumqttc` and `std`.
- `app/` runs the HTTP servers, the MQTT clients, the files and the
  database around the library.
- `tests/` exercises the library against the outside crates.
