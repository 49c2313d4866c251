//! Administrative and supply-control logic for a pausable fungible token.
//!
//! One configuration record per token holds its authority, its mint, a pause
//! latch and display metadata. The record lives at an address derived from the
//! mint, and every handler re-derives that address before trusting a record.
//! Ledger effects (mint, burn, transfer) are not performed here: a successful
//! handler returns the ledger call to make, with the signer that authorises it.

pub mod key;
pub mod address;
pub mod state;
pub mod handlers;
pub mod laws;

pub use handlers::{
    burn_tokens, initialize, mint_tokens, pause, transfer_authority, transfer_tokens, unpause,
    BurnTokens, Initialize, LedgerCall, MintTokens, PauseToken, TransferAuthority, TransferTokens,
};
pub use key::Key;
pub use state::{ConfigStore, ErrorCode, TokenConfig, CONFIG_SEED, MAX_NAME_LEN, MAX_SYMBOL_LEN};
