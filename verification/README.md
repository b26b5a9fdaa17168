# enet_gw_api

The verified core of asyncio Python bindings for the Jung/Gira eNet
"Funk Gateway IP" client.

- `src/text.rs`: decimal numbers, booleans, quoting, and the `": "`-joined
  chain of error messages.
- `src/value.rs`: the value a device reports (`DeviceValue`, `DeviceBrightness`)
  and how it reads for the kind of device it came from (`DeviceReading`): its
  on/off state, brightness, state text and developer text.
- `src/device.rs`: device kinds and the number, name and kind of a device.
- `src/command.rs`: the commands sent to the gateway and the range checks on
  their percentages.
- `src/client.rs`: the device list of a connected client, lookup by number,
  failure messages, the default port and the end of a value stream.
- `app/lib.rs`: the Python module: network client, Tokio runtime, logging
  bridge and the Python classes, delegating every decision to the library.
