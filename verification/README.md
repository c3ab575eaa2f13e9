# marketx

An escrow marketplace contract whose logic is written and proved in Verus.

A buyer opens an escrow for a seller in some token, optionally split into
items, with an optional arbiter and shipment tracking identifier. The escrow
is then released (as a whole by the buyer, item by item, or on an oracle's
confirmation of delivery), cancelled by both parties, disputed through a
refund request and settled by the arbiter or admin, or, if it was never
funded, removed once its expiry window has passed. Releases pay a fee: a rate in basis points (with an override for
the native asset), lowered by the buyer's volume tier, bounded by a minimum,
a maximum and the amount, and waived for whitelisted buyers. Fees accrue to
the collector and are withdrawn on request.

## Layout

- `src/` — the verified library. `state.rs` holds the stored state
  (`Contract`) and its mathematical model (`ContractView`); every operation
  is a step of a state machine whose `ensures` gives the exact new state and
  the host effects (authorisations, token transfers, events) or the error,
  against a spec function of the model.
  - `admin.rs`, `create.rs`, `release.rs`, `disputes.rs`, `escrow_ops.rs` —
    the operations;
  - `fees.rs`, `volume.rs` — fee arithmetic and volume tiers;
  - `hashing.rs` — the duplicate-detection hash (SHA-256 from the host SDK);
  - `table.rs` — a verified finite map;
  - `laws.rs`, `books.rs`, `outcomes.rs` — proved properties: laws over
    several operations, the funds accounting of each step, and the outcome
    of each escrow operation on the inputs it accepts or refuses.
- `tests/` — executable tests of the library.
- `app/` — the contract shell for the host: it loads the stored state, calls
  the library and performs the effects it returns.

## Host types in the library

The host SDK's `Address`, `Bytes`, `Vec` and `Map` are handles into a host
environment: their contents live in the host, a value cannot be built or
read without an `Env`, and Verus sees nothing inside them. The logic needs
to read and compare what they hold, so the library keeps the same data as
plain values: an address as its XDR serialisation (`Address { xdr }`), byte
strings and lists (escrow items, refund request lists) as std `Vec`, whose
contents vstd specifies, and the ledger tables as `Table`, a verified finite
map. `app/` converts between the two forms at each entry point.
