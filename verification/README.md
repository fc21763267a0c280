# hub

The ticket hub contract: it sells event tickets, which a companion ticket
contract mints as NFTs, and checks a ticket in when its holder sends it back
to be burnt.

- `src/` is the library, verified with Verus. Every decision of the contract
  is made there over a model of its storage (`state`), of the messages it
  sends (`response`) and of its inputs (`msg`). `contract` holds the entry
  points with their specifications, `laws` the properties that hold across
  calls, `outside` the calls into `cosmwasm-std` and `cw-utils`.
- `app/` is the CosmWasm contract around it: the entry points, the storage
  layout, JSON, address validation and queries, which the library receives
  as closures.
- `tests/` run the library on concrete values.
