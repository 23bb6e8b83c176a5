//! Wire protocol constants for the Cashu/Iroh transport.

use vstd::prelude::*;

pub mod methods;

verus! {

/// ALPN identifier for the Cashu mint protocol over Iroh QUIC: the ASCII bytes
/// of `cashu/mint/0`.
pub const CASHU_ALPN: [u8; 12] = [
    0x63,
    0x61,
    0x73,
    0x68,
    0x75,
    0x2f,
    0x6d,
    0x69,
    0x6e,
    0x74,
    0x2f,
    0x30,
];

} // verus!
