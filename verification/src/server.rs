//! Iroh QUIC transport server for a Cashu mint.

use crate::discovery::{law_only_its_own_url_names_a_node, lemma_node_id_form, node_id_in_url};
use crate::node::{node_id_of, node_id_text, public_id, secret_bytes, write_node_id};
use crate::text::join;
use iroh::{NodeId, SecretKey};
use std::path::PathBuf;
use vstd::prelude::*;

verus! {

/// `std::path::PathBuf`: a path, carried and not looked into.
#[verifier::external_type_specification]
#[verifier::external_body]
pub struct ExPathBuf(std::path::PathBuf);

/// Configuration for the [`IrohMintServer`].
#[derive(Debug)]
pub struct IrohMintConfig {
    /// Optional path to persist the Ed25519 node identity key (raw 32 bytes).
    ///
    /// If `None`, a fresh random key is generated on every start (the node ID
    /// will change between restarts). Supply a path to get a stable identity.
    pub identity_path: Option<PathBuf>,
}

impl Default for IrohMintConfig {
    /// No identity file.
    fn default() -> (config: IrohMintConfig)
        ensures
            config.identity_path is None,
    {
        IrohMintConfig { identity_path: None }
    }
}

/// An Iroh QUIC transport server for a Cashu mint, around the router that
/// accepts its connections.
#[derive(Debug)]
pub struct IrohMintServer<R> {
    /// The accept loop.
    router: R,
    /// The node ID derived from the endpoint's secret key.
    node_id: NodeId,
}

impl<R> IrohMintServer<R> {
    /// The router of the server.
    pub closed spec fn serving(self) -> R {
        self.router
    }

    /// The node ID of the server.
    pub closed spec fn known_as(self) -> NodeId {
        self.node_id
    }

    /// Create a server from its running router and the secret key of its endpoint.
    pub fn new(router: R, secret_key: &SecretKey) -> (server: IrohMintServer<R>)
        ensures
            server.serving() == router,
            server.known_as() == node_id_of(secret_bytes(*secret_key)),
    {
        IrohMintServer { router, node_id: public_id(secret_key) }
    }

    /// Returns the Iroh node ID of this server.
    pub fn node_id(&self) -> (node_id: NodeId)
        ensures
            node_id == self.known_as(),
    {
        self.node_id
    }

    /// The router of the server.
    pub fn router(&self) -> (router: &R)
        ensures
            *router == self.serving(),
    {
        &self.router
    }

    /// Returns a human-readable `iroh://<z32-node-id>` URL. A wallet that
    /// parses it finds the node ID of the server. With its prefix dropped or
    /// replaced, or with anything behind it, it is refused.
    pub fn iroh_url(&self) -> (url: String)
        ensures
            url@ == "iroh://"@ + node_id_text(self.known_as()),
            node_id_in_url(url@) == Some(self.known_as()),
            node_id_in_url(node_id_text(self.known_as())) is None,
            node_id_in_url(url@.push('/')) is None,
            forall|prefix: Seq<char>, suffix: Seq<char>|
                prefix != "iroh://"@ || suffix.len() > 0 ==> node_id_in_url(
                    #[trigger] (prefix + node_id_text(self.known_as()) + suffix),
                ) is None,
    {
        let text = write_node_id(&self.node_id);
        let url = join("iroh://", text.as_str());
        assert(url@.skip("iroh://"@.len() as int) == text@);
        proof {
            lemma_node_id_form(text@);
            reveal_strlit("iroh://");
            let none = Seq::<char>::empty();
            law_only_its_own_url_names_a_node(none, text@, none);
            assert(none + text@ + none =~= text@);
            law_only_its_own_url_names_a_node("iroh://"@, text@, seq!['/']);
            assert("iroh://"@ + text@ + seq!['/'] =~= url@.push('/'));
            assert forall|prefix: Seq<char>, suffix: Seq<char>|
                prefix != "iroh://"@ || suffix.len() > 0 implies node_id_in_url(
                #[trigger] (prefix + text@ + suffix),
            ) is None by {
                law_only_its_own_url_names_a_node(prefix, text@, suffix);
            }
        }
        url
    }
}

} // verus!
