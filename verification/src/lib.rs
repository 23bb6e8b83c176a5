//! Iroh QUIC transport for Cashu mints and wallets.
//!
//! A mint is exposed over [Iroh](https://iroh.computer/) peer-to-peer QUIC
//! connections, and a wallet reaches it by its node ID. This crate holds what
//! the two ends decide and compute: framing, envelopes, dispatch, routing,
//! subscriptions and identities. Endpoints, streams, files and the mint itself
//! are moved by the caller; each state machine of this crate takes what happened
//! and says what is to be done next.
//!
//! ## Wire protocol
//!
//! - **ALPN**: `cashu/mint/0` ([`CASHU_ALPN`])
//! - **Framing**: 4-byte big-endian length prefix + JSON body per QUIC
//!   bidirectional stream ([`wire`])
//! - **Envelope**: JSON-RPC 2.0 ([`wire::RpcRequest`] / [`wire::RpcResponse`])
//! - **One stream per request/response pair** ([`stream`], [`exchange`]), but for
//!   subscription streams, which are long-lived ([`subscription`])
//!
//! ## The mint's side
//!
//! [`identity`] finds the secret key to start with, [`server`] knows the node by
//! it, [`stream`] takes one request from its stream to its response, and
//! [`handler`] follows the request through the mint.
//!
//! ## The wallet's side
//!
//! [`discovery`] finds the node of a mint, [`routes`] maps the URLs of the HTTP
//! API to JSON-RPC methods, [`transport`] holds the peer and its connection, and
//! [`exchange`] takes one request from its stream to its result.
//!
//! [`agreement`] states that the two sides understand each other.

pub mod agreement;
pub mod buffer;
pub mod discovery;
pub mod error;
pub mod exchange;
pub mod handler;
pub mod identity;
pub mod json;
pub mod node;
pub mod protocol;
pub mod routes;
pub mod server;
pub mod stream;
pub mod subscription;
pub mod text;
pub mod transport;
pub mod wire;

pub use error::Error;
pub use protocol::methods;
pub use protocol::CASHU_ALPN;
pub use server::{IrohMintConfig, IrohMintServer};
pub use transport::IrohAsync;
pub use wire::{RpcError, RpcRequest, RpcResponse};
