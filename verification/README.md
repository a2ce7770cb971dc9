# parachain_service

The decisions behind bringing up a parachain node, written and proved in Verus.

`src/` is the library. `node` and `partial` are the start-up of a node and the assembly of its
partial components, as state machines: each hands out one action at a time and takes how it ended.
`node_laws` and `partial_laws` state what holds of every run of them. `chains` sets up the nodes of
each kind of chain, `consensus` the collators, `import_queue` the import queues. `aura` waits for
Aura on chains that started without it, and keeps the collators from work until then. `config`, `inherents`, `code_hash`, `hardware` and `tasks`
hold the smaller rules.

`app/` performs the actions on the real components of a node. Of it, `drive` holds the loops; the
rest is wiring, generic over the runtime API and the RPC modules of the chains.

`tests/` runs the library on concrete inputs.
