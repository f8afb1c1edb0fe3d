# smart_contract_pro

A fee-splitting payment contract for CosmWasm chains, with its decisions
verified in Verus.

The owner who instantiates the contract sets a transaction fee (a percentage)
and three parties that share the collected fee (a sending bank, a receiving
bank and a service, each with its percentage of the fee). A transfer sends the
amount minus the fee to the recipient and each party's share of the fee to it.
Only the owner may change the fee or the whole configuration. A configuration
update sent before the contract is instantiated is accepted and writes a
configuration without an owner, which anyone may change until instantiation
sets one.

Layout:

- `src/` — the verified library. `contract.rs` holds the entry points as
  functions from what storage held (whether a configuration is there and what
  loading it gave, as one `StoredState`; for a transfer, also the host's verdict on the recipient
  address) to the state to store and the response;
  `laws.rs` holds the properties that span operations; `msg.rs`, `state.rs`,
  `response.rs` and `error.rs` the data; `decimal.rs` the rendering of numbers
  in response attributes.
- `app/` — the contract as the chain runs it: the entry points that load and
  save the state with `cw-storage-plus`, record the version with `cw2`, ask
  the host to validate addresses, and convert between the host library's types
  (with their serde and schemars derives) and the library's.
- `tests/` — tests of the library on concrete values.
