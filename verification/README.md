# laptop_sensor_daemon

A daemon that merges the readings of a laptop's tablet-mode switch and of the
`net.hadess.SensorProxy` service into one device state, and serves that state as the
read-only D-Bus interface `org.sbchild.LaptopSensorDaemon` on the system bus.

- `src/` is the verified library (Verus): the decisions of the daemon.
  - `event`: sensor notifications, device events and how events update the state.
  - `service`: the values of the exposed properties and which of them an update announces.
  - `processor`: one step of the event processor.
  - `input`: recognizing input event nodes and tablet-mode switch events.
  - `sensors`: which sensors of the sensor proxy to claim and to release.
- `app/` is the program: D-Bus, evdev and channel plumbing around the library.
- `tests/` runs the library on concrete inputs.
