# ido_tier

Two Secret Network contracts, verified with Verus:

- the **tier** contract, to which users delegate SCRT; the USD value of a
  deposit, at the rate of the Band oracle, gives the depositor a tier, and
  withdrawn deposits can be claimed after the unbonding period;
- the **IDO** contract, which runs token sales in which how much a buyer may
  pay, and when the bought tokens are released, depends on the buyer's tier.

Layout:

- `src/` is the verified library. Its handlers take what the contracts read
  from storage, from the message and from other contracts as plain values,
  and return what to store, which messages to send and what to answer, each
  with a contract that states it exactly. `src/tier` and `src/ido` follow
  the two contracts; `src/common.rs` and `src/seqs.rs` hold what both use
  (coins, paging, removal of items at given positions).
- `app/` holds the entry points on the chain: storage, address conversion,
  queries to the oracle, the staking module and other contracts, and the
  Cosmos messages. It hands values to the library and writes back what the
  library returns.
- `tests/` exercises the library on concrete values.
