# spike

A library for the Spike 2 node bus of Stern pinball machines, with its
behaviour stated in Verus contracts and proved.

- `src/messages/`: the bus and node messages, their wire format, the node
  frame with its checksum, and the decoding of responses.
- `src/switches.rs`: the last switch snapshot of each node and the switch
  events that a new snapshot gives.
- `src/node_bus.rs`: the actions by which the library drives the bus, and
  powering the bus up and down.
- `src/startup.rs`: the bring-up of the system as a state machine.
- `src/watch.rs`: the polling cycle that waits for switch events.
- `src/input.rs`, `src/toggle.rs`: naming switches, mapping them to keys,
  and toggle switches.
- `app/`: the program that opens the serial line, the SPI device and the
  virtual keyboard, and carries out the actions that the library decides on.
