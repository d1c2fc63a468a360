# OP-ZisK

The decisions behind proof generation for OP Stack chains with the ZisK zkVM, as a library verified
with Verus: which blocks and headers a proof needs, whether the endpoints can serve them, which L1
head a range is derived from, what goes into the zkVM programs and what comes out, and what becomes
of proof requests.

## Layout

- `src/` is the library. It performs no input or output: a caller makes the RPC calls, reads the
  environment and the files, and hands the answers over as plain values. A procedure that needs
  several answers is a function from the answers so far to the next step: ask for something, be
  done, or fail.
- `src/outside.rs` holds every call into another crate, with what is trusted of it.
- `tests/` runs the library on concrete values.
- `app/` is the command line around the library: JSON-RPC, files, the prover and the database.

## Dependencies

Three crates are named in `Cargo.toml` for their versions only, since they come in through the
`alloy` crates. `alloy-tx-macros` writes code for one release of `alloy-consensus`, so the two are
held to the same release. `ruint` and `serde_with` are held to releases with fewer optional
dependencies than the newest ones, which keeps the tree small.

## Configuration

The endpoints come from `L1_RPC`, `L2_RPC`, `L2_NODE_RPC` and, if there is one, `L1_BEACON_RPC`, or
from the devnet API at `DEVNET_API_URL`. Chain configurations are kept in `L1_CONFIG_DIR` and
`L2_CONFIG_DIR`.
