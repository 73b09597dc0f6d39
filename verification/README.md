# xcnft

A pallet that moves collections and items of non-fungible tokens between sibling parachains, and a
syncing strategy for their nodes. The decisions are verified with Verus; what they rest on without
proof is in `src/outside.rs`.

- `src/` holds the library: the pallet (`transfer`, `proposal`, `nft`, `remote`, `receive`,
  `arrival`), the syncing strategy (`sync`, `strategy`), and what holds of them over many calls
  (`laws`, `crossing`).
- `tests/` runs the library.
- `app/` puts the library on a FRAME chain: storage, the NFT pallet, the message router, and the
  strategies that do the syncing.

A call of the pallet reads what the chain stores, asks the library, and does what the library answers:
send a message, make calls of the NFT pallet, remove records, emit an event. Where the answer depends
on how a message or a call went, the outcome goes back to the library.
