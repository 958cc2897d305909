# streamflow_analytics

Statistics and snapshots of Solana vesting streams (Streamflow and the
community vesting contract), with the logic verified by Verus.

- `src/` — the verified library:
  - `wire`: the borsh wire form of the primitive fields, read through
    borsh's own deserializers;
  - `pubkey`: account addresses and their base58 text;
  - `community`: the community contract's stream layout, its decoder and
    its human-readable form;
  - `streamflow`: the Streamflow stream layout, its decoder, its
    human-readable form and the multisig label of a stream;
  - `keyed`: values keyed by account address, each address once;
  - `fetch_logic`: per-token totals of the community streams.
- `app/` — the services around it: RPC and HTTP calls, Redis, JSON output,
  the poller loop and the scheduler; prices and values in USD are floating
  point and are computed there.
- `tests/` — tests of the library on concrete accounts.
