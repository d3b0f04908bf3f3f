# homeostat

Whole-house energy policy for Home Assistant. The daemon reads a small set of
perception entities, runs a pure decision matrix, and publishes what the house
should be doing through MQTT discovery. It never touches a device: thin
automations on the other side forward its decisions.

- `src/` is the policy, verified with Verus. `reading` holds the numbers that
  sensors report, `state` turns entity states into a picture of the house,
  `decide` holds the matrix and every temperature, `daemon` decides what to do
  about each event, `ha` and `mqtt` word the two conversations, and `json` is
  the boundary to `serde_json`.
- `app/` is the daemon around it: sockets, timers, the environment.
- `tests/` runs the policy on concrete houses.

Readings are double-precision numbers held as bit patterns, and are only ever
compared. Setpoints are whole tenths of a degree Celsius.
