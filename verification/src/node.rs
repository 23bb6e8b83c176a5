//! Node identities.
//!
//! A node is known by its Ed25519 public key, the node ID, and holds the
//! secret key that belongs to it. The keys are `iroh`'s; the functions marked
//! `external_body` make the calls on them.

use iroh::node_info::NodeIdExt;
use iroh::{NodeId, SecretKey};
use vstd::prelude::*;

verus! {

/// `iroh::PublicKey`, also called `iroh::NodeId`: a public key.
#[verifier::external_type_specification]
#[verifier::external_body]
pub struct ExPublicKey(iroh::PublicKey);

/// `iroh::SecretKey`: a secret key, known by [`secret_bytes`].
#[verifier::external_type_specification]
#[verifier::external_body]
pub struct ExSecretKey(iroh::SecretKey);

/// The 32 bytes of a secret key.
pub uninterp spec fn secret_bytes(key: iroh::SecretKey) -> Seq<u8>;

/// The node ID that belongs to the secret key with these bytes.
pub uninterp spec fn node_id_of(secret: Seq<u8>) -> iroh::NodeId;

/// The z-base-32 text of a node ID.
pub uninterp spec fn node_id_text(node_id: iroh::NodeId) -> Seq<char>;

/// The node ID that a z-base-32 text stands for, if it stands for one.
pub uninterp spec fn node_id_parsed(text: Seq<char>) -> Option<iroh::NodeId>;

/// `SecretKey::from_bytes`: the secret key with these bytes.
#[verifier::external_body]
pub(crate) fn key_from_bytes(bytes: &[u8; 32]) -> (key: SecretKey)
    ensures
        secret_bytes(key) == bytes@,
{
    SecretKey::from_bytes(bytes)
}

/// `SecretKey::to_bytes`: the bytes of the secret key.
#[verifier::external_body]
pub(crate) fn key_bytes(key: &SecretKey) -> (bytes: [u8; 32])
    ensures
        bytes@ == secret_bytes(*key),
{
    key.to_bytes()
}

/// `SecretKey::public`: the node ID that belongs to the key. It depends on the
/// bytes of the secret key alone.
#[verifier::external_body]
pub(crate) fn public_id(key: &SecretKey) -> (node_id: NodeId)
    ensures
        node_id == node_id_of(secret_bytes(*key)),
{
    key.public()
}

/// The characters of z-base-32.
pub open spec fn z32_alphabet() -> Seq<char> {
    "ybndrfg8ejkmcpqxot1uwisza345h769"@
}

/// The text has the form of a node ID in z-base-32: 52 characters of its alphabet.
pub open spec fn has_node_id_form(text: Seq<char>) -> bool {
    text.len() == 52 && forall|i: int|
        0 <= i < text.len() ==> z32_alphabet().contains(#[trigger] text[i])
}

/// `NodeIdExt::to_z32`: the z-base-32 text of a node ID. It has 52 characters
/// of the alphabet, and is read back as the node ID.
#[verifier::external_body]
pub(crate) fn write_node_id(node_id: &NodeId) -> (text: String)
    ensures
        text@ == node_id_text(*node_id),
        has_node_id_form(text@),
        node_id_parsed(text@) == Some(*node_id),
{
    node_id.to_z32()
}

/// `NodeIdExt::from_z32`: the node ID that the text stands for, and `None`
/// where it is no z-base-32 text of a node ID. A text whose bit count exceeds
/// `usize` is left out.
#[verifier::external_body]
pub(crate) fn parse_node_id(text: &str) -> (node_id: Option<NodeId>)
    requires
        vstd::utf8::encode_utf8(text@).len() * 5 + 7 <= usize::MAX,
    ensures
        node_id == node_id_parsed(text@),
{
    NodeId::from_z32(text).ok()
}

} // verus!
