# evergreen

The networking backend of FiresideXR: the packet format, passports, and the
decisions of the peer-to-peer network tasks, verified with Verus.

- `src/types`: avatars, peers, packet data and its byte form, signed raw
  packets and their checking, passports, commands and responses.
- `src/network`: the peer table and the untrusted hub and gossip hub
  networks as state machines (event or command in, report or action out).
- `src/client.rs`: the peer-to-peer client network as a state machine:
  numbering, signing and addressing of outgoing packets, disconnecting.
- `src/mesh`: the room-based mesh network: rooms, the handshake of a new
  connection as a step function (blocklist, first packet, ticket, filter,
  reply, and the exchange of peer tickets), the client event loop,
  passports with their JWT, account providers.
- `src/signals.rs`: what the Godot extension emits for each response.
- `src/bindings.rs`: the trusted declarations of the libp2p and std calls,
  and the signing key that ties a keypair to its public key and peer id.
- `app/`: the libp2p swarms, channels and serde forms around the library.

Not here: the iroh endpoint that would run the mesh handshake and event
loop, the protobuf codec of mesh packets (its schema is not part of the
sources), and the Godot extension that emits the signals.
