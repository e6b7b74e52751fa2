# wg_mesh

A WireGuard mesh: a registry hands each device an address in 10.100.0.0/24
and tells connected devices about each other; a client finds its public
endpoint, registers, and configures its WireGuard peers.

`src/` is the verified library (Verus): IPv4 text, mesh address allocation,
the fields the registry stores and how they read back, public keys, the
client's discovery order, peer settings and the WebSocket session steps.
`app/` runs the programs around it: `registry` (actix-web), `server`
(axum) and `client`, with the network, Valkey, netlink and WireGuard I/O.
