//! Account-layout decoding, human-readable conversion and aggregation logic
//! for Streamflow vesting contracts on Solana.
pub mod wire;
pub mod pubkey;
pub mod community;
pub mod streamflow;
pub mod keyed;
pub mod fetch_logic;
