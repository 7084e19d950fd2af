# bridger

The decision logic of a cross-chain bridge relayer, written in Verus and
proved against its contracts.

- `src/feemarket.rs`: whether a relayer delivers a message nonce on the
  Darwinia fee market, and the retrying decision session around the chain
  queries.
- `src/migrate.rs`: the second migration of the darwinia-ethereum state
  store, stage by stage, with its effect on a model of the store.
- `src/relay.rs`: the Pangolin-Pangoro headers-and-messages relay session
  and its message relay plan.
- `src/compile_source.rs`: the subcommand executor that finds, builds and
  runs a bridge.
- `src/keys.rs`, `src/message.rs`, `src/error.rs`: the key report, the bus
  messages and the errors.

The library never touches the network, the disk or other processes: each
session hands out the next piece of such work and takes its answer.
`app/` is the program around it that performs that work.
