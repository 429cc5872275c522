# tyche

Verified instruction logic of three Solana programs that together run sealed
competitions (auctions) settled in SOL:

* `competition` — the competition lifecycle (create, activate, extend, close,
  settle, cancel), bidder registration and the protocol configuration;
* `escrow` — per-bidder vaults: deposit, release to the seller after a win
  (minus the protocol fee), refund otherwise;
* `voter_weight` — an SPL Governance voter-weight add-in whose voting power is
  the SOL a voter holds in escrow.

Every handler takes the accounts of an instruction as plain values
(`program::AccountState`) and returns either the error the program reports or
a description of what it does (accounts to create, data to store, lamports to
move). Its contract states both exactly: the error as a function of the
inputs, and the effect over byte-level models of the account layouts
(`layout`). The `laws` modules prove properties across instructions, such as
conservation of lamports, the fee split, and that voting power equals the
escrowed amount.

`app/` runs the escrow and voter-weight programs on the runtime: it reads
the accounts and sysvars, performs what the handlers return (account
creations, transfers, lamport and data writes) and converts instructions for
`solana_sdk` clients. The competition program's handlers are the library's;
no runtime driver for that program is included, since its instruction
encoding and program id are not part of this project. `tests/` runs the
handlers end to end against an in-memory ledger.
