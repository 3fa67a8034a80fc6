# dharitri_contracts

Verified decision logic of a family of Dharitri smart contracts, written in
Verus.

- `src/` — the library. Most contracts are traits over their storage (the
  storage accessors are the trait's required methods, the endpoints its
  provided methods, each with a contract over the storage's mathematical
  view), together with an in-memory storage that implements them; the
  multisig proposals are a type of their own:
  - `on_chain_claim`: per-epoch claims, streaks, paid streak repair, admin
    updates, the repair token's validation;
  - `initial_launch`: the decreasing buy and sell fees of a fair launch, its
    phase checks, buy limits and the swap asked of the pair;
  - `exchange_actions`: registration of exchange endpoints per contract and
    the checks of a forwarded call and the call made to the exchange;
  - `multisig_propose`: proposals to a multisig, their identifiers, first
    signers and batches;
  - `paymaster`, `pair_mock`, `proxy_deployer`, `deposit_info`: the smaller
    contracts and types;
  - `amount`: token amounts of any size, as 32-bit limbs whose view is a
    natural number (sum, double, half, comparisons);
  - `collections`: byte-string sets and maps with set and map views;
  - `token_identifier`: the validity of token identifiers, checked by the
    chain's own function.
- `tests/` — tests of the library on concrete values.
- `app/` — endpoints on the chain: they read the caller, payments, block and
  storage through `dharitri-sc`, call the library and perform the transfers it
  decides on.
