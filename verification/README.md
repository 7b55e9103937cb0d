# aleph_node

The decision logic of an Aleph Zero validator node with Ethereum (Frontier)
compatibility, written in Verus and verified against its contracts.

- `src/backoff.rs`: when block authoring pauses for lack of finality, with its laws.
- `src/eth_config.rs`: the Ethereum settings and their defaults.
- `src/aleph_cli.rs`: the validator options that the service reads.
- `src/service.rs`: backup location, rate limits, protocol naming, Frontier
  database settings, slot timing.
- `src/frontier.rs`: the shared Frontier components and the maintenance tasks.
- `src/rpc.rs`: the RPC API groups a node serves, in order.
- `src/paths.rs`: path joining through `std::path`.
- `src/runtime.rs`: the stand-in runtime type.

`app/` wires these decisions into a Substrate node: the command-line parser,
the client and network setup, task spawning and RPC merging. It needs the
Substrate and Frontier crates, which are not part of this build.
