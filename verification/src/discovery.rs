//! Finding the Iroh node of a mint.

use crate::node::{has_node_id_form, node_id_parsed, parse_node_id, z32_alphabet};
use crate::text::{
    law_prefix_and_rest_are_the_text, lemma_utf8_concat, lemma_utf8_of_some, strip_prefix, stripped,
};
use iroh::NodeId;
use vstd::prelude::*;
use vstd::utf8::encode_utf8;

verus! {

/// The z-base-32 text of a node ID has no more bytes than this.
pub const MAX_NODE_ID_TEXT: usize = 52;

/// The node ID that a text stands for: the text is the z-base-32 encoding of
/// the node ID.
pub open spec fn node_id_in(text: Seq<char>) -> Option<NodeId> {
    if encode_utf8(text).len() <= MAX_NODE_ID_TEXT {
        node_id_parsed(text)
    } else {
        None
    }
}

/// The node ID that an `iroh://` URL names.
pub open spec fn node_id_in_url(url: Seq<char>) -> Option<NodeId> {
    match stripped(url, "iroh://"@) {
        Some(text) => node_id_in(text),
        None => None,
    }
}

/// A text in the form of a node ID has 52 bytes, and neither colons nor slashes.
pub proof fn lemma_node_id_form(text: Seq<char>)
    requires
        has_node_id_form(text),
    ensures
        encode_utf8(text).len() == 52,
        forall|i: int| 0 <= i < text.len() ==> #[trigger] text[i] != ':' && text[i] != '/',
{
    reveal_strlit("ybndrfg8ejkmcpqxot1uwisza345h769");
    let alphabet = z32_alphabet();
    assert(forall|k: int|
        0 <= k < alphabet.len() ==> #[trigger] alphabet[k] != ':' && alphabet[k] != '/'
            && alphabet[k] <= '\u{7f}');
    assert forall|i: int| 0 <= i < text.len() implies #[trigger] text[i] != ':' && text[i] != '/'
        && text[i] <= '\u{7f}' by {
        assert(alphabet.contains(text[i]));
    }
    vstd::utf8::is_ascii_chars_encode_utf8(text);
}

/// The text of a node ID is found in its own `iroh://` URL alone: with another
/// prefix, without one, or with anything behind it, it is refused.
pub proof fn law_only_its_own_url_names_a_node(
    prefix: Seq<char>,
    text: Seq<char>,
    suffix: Seq<char>,
)
    requires
        has_node_id_form(text),
        prefix != "iroh://"@ || suffix.len() > 0,
    ensures
        node_id_in_url(prefix + text + suffix) is None,
{
    let url = prefix + text + suffix;
    let scheme = "iroh://"@;
    reveal_strlit("iroh://");
    lemma_node_id_form(text);
    if scheme.is_prefix_of(url) {
        assert(url[6] == scheme[6]);
        if prefix.len() < 7 {
            assert(url[6] == text[6 - prefix.len()]);
            assert(false);
        }
        let more = prefix.skip(7);
        assert(url.skip(7) =~= more + text + suffix);
        lemma_utf8_concat(more, text);
        lemma_utf8_concat(more + text, suffix);
        if more.len() > 0 {
            lemma_utf8_of_some(more);
        } else {
            assert(prefix =~= scheme) by {
                assert(forall|i: int| 0 <= i < 7 ==> prefix[i] == url[i] && url[i] == scheme[i]);
            }
            lemma_utf8_of_some(suffix);
        }
    }
}

/// A text that does not begin with `iroh://` names no node.
pub proof fn law_only_iroh_urls_name_nodes(url: Seq<char>)
    requires
        !"iroh://"@.is_prefix_of(url),
    ensures
        node_id_in_url(url) is None,
{
}

/// The node ID that a text stands for, if it is the z-base-32 encoding of one.
pub fn node_id_from_text(text: &str) -> (node_id: Option<NodeId>)
    ensures
        node_id == node_id_in(text@),
{
    if text.as_bytes().len() <= MAX_NODE_ID_TEXT {
        parse_node_id(text)
    } else {
        None
    }
}

/// Parse an `iroh://` URL and return the encoded [`NodeId`].
///
/// The URL format is `iroh://<z32-encoded-node-id>` as produced by
/// [`crate::server::IrohMintServer::iroh_url`] on the mint side.
///
/// Returns `None` if the URL does not start with `iroh://` or the node-id
/// segment cannot be parsed.
pub fn parse_iroh_url(url: &str) -> (node_id: Option<NodeId>)
    ensures
        node_id == node_id_in_url(url@),
{
    match strip_prefix(url, "iroh://") {
        Some(text) => node_id_from_text(text),
        None => None,
    }
}

/// The parts of a mint's NUT-06 info that tell where it can be reached.
#[derive(Debug)]
pub struct MintInfo {
    /// The URLs of the mint, where it gives any.
    pub urls: Option<Vec<String>>,
}

/// The node ID that is named by the first URL that names one.
pub open spec fn first_node_id(urls: Seq<String>) -> Option<NodeId>
    decreases urls.len(),
{
    if urls.len() == 0 {
        None
    } else if node_id_in_url(urls[0]@) is Some {
        node_id_in_url(urls[0]@)
    } else {
        first_node_id(urls.drop_first())
    }
}

/// Scan the `urls` of a mint's info and return the first Iroh [`NodeId`] found.
///
/// Returns `None` when no `iroh://` URL is present in the mint's info.
pub fn iroh_node_id_from_mint_info(info: &MintInfo) -> (node_id: Option<NodeId>)
    ensures
        node_id == match info.urls {
            Some(urls) => first_node_id(urls@),
            None => None,
        },
{
    match &info.urls {
        None => None,
        Some(urls) => {
            let mut i: usize = 0;
            assert(urls@.skip(0) == urls@);
            while i < urls.len()
                invariant
                    info.urls == Some(*urls),
                    i <= urls@.len(),
                    first_node_id(urls@) == first_node_id(urls@.skip(i as int)),
                decreases urls@.len() - i,
            {
                assert(urls@.skip(i as int)[0] == urls@[i as int]);
                assert(urls@.skip(i as int).drop_first() == urls@.skip(i + 1));
                let found = parse_iroh_url(urls[i].as_str());
                if found.is_some() {
                    return found;
                }
                i = i + 1;
            }
            None
        },
    }
}

/// The node ID that is found is the one that the earliest URL with a node ID names.
pub proof fn law_first_url_wins(urls: Seq<String>, i: int)
    requires
        0 <= i < urls.len(),
        node_id_in_url(urls[i]@) is Some,
        forall|j: int| 0 <= j < i ==> node_id_in_url(#[trigger] urls[j]@) is None,
    ensures
        first_node_id(urls) == node_id_in_url(urls[i]@),
    decreases i,
{
    if i > 0 {
        assert(node_id_in_url(urls[0]@) is None);
        assert forall|j: int| 0 <= j < i - 1 implies node_id_in_url(
            #[trigger] urls.drop_first()[j]@,
        ) is None by {
            assert(node_id_in_url(urls[j + 1]@) is None);
        }
        law_first_url_wins(urls.drop_first(), i - 1);
    }
}

/// Nothing is found where no URL names a node ID.
pub proof fn law_no_iroh_url_no_node_id(urls: Seq<String>)
    requires
        forall|j: int| 0 <= j < urls.len() ==> node_id_in_url(#[trigger] urls[j]@) is None,
    ensures
        first_node_id(urls) is None,
    decreases urls.len(),
{
    if urls.len() > 0 {
        assert(node_id_in_url(urls[0]@) is None);
        assert forall|j: int| 0 <= j < urls.drop_first().len() implies node_id_in_url(
            #[trigger] urls.drop_first()[j]@,
        ) is None by {
            assert(node_id_in_url(urls[j + 1]@) is None);
        }
        law_no_iroh_url_no_node_id(urls.drop_first());
    }
}

/// How a payment request (NUT-18) wants to be paid.
#[derive(Debug, Clone, Copy, PartialEq, Eq, Structural)]
pub enum TransportType {
    /// Over Iroh.
    Iroh,
    /// In any other way.
    Other,
}

/// A transport of a payment request (NUT-18).
#[derive(Debug)]
pub struct Transport {
    /// The type of the transport.
    pub _type: TransportType,
    /// The target; for an Iroh transport, a z-base-32 encoded node ID.
    pub target: String,
}

/// Extract the Iroh [`NodeId`] from a NUT-18 [`Transport`] if its type is
/// [`TransportType::Iroh`].
///
/// Returns `None` if the transport type is not `Iroh` or if parsing fails.
pub fn node_id_from_nut18_transport(transport: &Transport) -> (node_id: Option<NodeId>)
    ensures
        node_id == if transport._type is Iroh {
            node_id_in(transport.target@)
        } else {
            None
        },
{
    if transport._type == TransportType::Iroh {
        node_id_from_text(transport.target.as_str())
    } else {
        None
    }
}

/// The node ID of a text, and of an `iroh://` URL with this text, is what the
/// text decodes to. A node ID has 52 characters, so that no text of more than 52
/// bytes stands for one.
pub proof fn law_url_names_what_its_text_decodes_to(text: Seq<char>)
    ensures
        node_id_in_url("iroh://"@ + text) == node_id_in(text),
        encode_utf8(text).len() <= 52 ==> node_id_in(text) == node_id_parsed(text),
        encode_utf8(text).len() > 52 ==> node_id_in(text) is None,
{
    law_prefix_and_rest_are_the_text(text, "iroh://"@, text);
}

} // verus!
