//! JSON-RPC method names.

use vstd::prelude::*;

verus! {

/// Get active mint keys (NUT-01).
pub const GET_KEYS: &'static str = "cashu_getKeys";

/// Get all keysets (NUT-02).
pub const GET_KEYSETS: &'static str = "cashu_getKeysets";

/// Get keys for a specific keyset by ID (NUT-01).
pub const GET_KEY_BY_ID: &'static str = "cashu_getKeyById";

/// Swap proofs for new blinded signatures (NUT-03).
pub const POST_SWAP: &'static str = "cashu_postSwap";

/// Check the status of a mint quote (NUT-04).
pub const GET_MINT_QUOTE: &'static str = "cashu_getMintQuote";

/// Create a mint quote (NUT-04).
pub const POST_MINT_QUOTE: &'static str = "cashu_postMintQuote";

/// Mint tokens against a paid quote (NUT-04).
pub const POST_MINT: &'static str = "cashu_postMint";

/// Check the status of a melt quote (NUT-05).
pub const GET_MELT_QUOTE: &'static str = "cashu_getMeltQuote";

/// Create a melt quote (NUT-05).
pub const POST_MELT_QUOTE: &'static str = "cashu_postMeltQuote";

/// Melt tokens (NUT-05).
pub const POST_MELT: &'static str = "cashu_postMelt";

/// Check proof state (NUT-07).
pub const CHECK_STATE: &'static str = "cashu_checkState";

/// Get mint info (NUT-06).
pub const GET_INFO: &'static str = "cashu_getInfo";

/// Restore blind signatures (NUT-09).
pub const RESTORE: &'static str = "cashu_restore";

/// Subscribe to notifications (NUT-17, long-lived stream).
pub const SUBSCRIBE: &'static str = "cashu_subscribe";

} // verus!
