# netstack

The packet plumbing of a userspace network stack, written and verified in Verus.

- `src/stack.rs`: the builder and the stack, which passes IP packets on to the endpoints of
  their protocols with backpressure.
- `src/device.rs`: the virtual network device of an endpoint.
- `src/filter.rs`, `src/addr.rs`, `src/packet.rs`: which packets may come in.
- `src/channel.rs`: the channels of tokio, and what is relied on of them.
- `src/laws.rs`: what holds over any number of calls.
- `app/`: the stack as a stream and a sink, and the device as a device of smoltcp.
