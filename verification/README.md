# hyperx_monitor

Battery and status monitor for the HyperX Cloud Stinger 2 Wireless headset.

- `src/` is the verified protocol library: command codes and report layout
  (`command`), decoding of the headset's answers and the texts of responses
  and errors (`response`, `text`), the request/response exchange as a state
  machine (`exchange`), the readings kept about the headset (`readings`),
  selection of the headset's HID interface (`device`), the reconnection
  delays (`reconnect`) and the values shown by a status window (`gui`).
- `app/` is the program: it opens the device with hidapi, carries out what the
  exchange asks for (mode switches, reads, writes, pauses), sets up logging
  and runs the reconnecting monitor loop.
- `tests/` runs the library on concrete reports and exchanges.
