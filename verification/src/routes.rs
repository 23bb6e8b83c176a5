//! The mapping from the URLs of the HTTP API to JSON-RPC methods.

use crate::error::{TransportError, TransportErrorView};
use crate::handler::Operation;
use crate::json;
use crate::json::{empty_object, json_of, member_of, members_of, Json};
use crate::text::{join, same_text};
use serde_json::Value;
use url::Url;
use vstd::prelude::*;

verus! {

/// `url::Url`: a URL, known by [`url_path`].
#[verifier::external_type_specification]
#[verifier::external_body]
pub struct ExUrl(url::Url);

/// The path of a URL.
pub uninterp spec fn url_path(url: url::Url) -> Seq<char>;

/// `Url::path`: the path of the URL.
#[verifier::external_body]
pub(crate) fn path_of(url: &Url) -> (path: &str)
    ensures
        path@ == url_path(*url),
{
    url.path()
}

/// The pieces of a path between its slashes.
pub open spec fn pieces(path: Seq<char>) -> Seq<Seq<char>>
    decreases path.len(),
{
    if path.len() == 0 {
        seq![Seq::<char>::empty()]
    } else {
        let before = pieces(path.drop_last());
        if path.last() == '/' {
            before.push(Seq::<char>::empty())
        } else {
            before.drop_last().push(before.last().push(path.last()))
        }
    }
}

/// The texts that are not empty.
pub open spec fn without_empty(texts: Seq<Seq<char>>) -> Seq<Seq<char>>
    decreases texts.len(),
{
    if texts.len() == 0 {
        Seq::empty()
    } else if texts.last().len() == 0 {
        without_empty(texts.drop_last())
    } else {
        without_empty(texts.drop_last()).push(texts.last())
    }
}

/// The segments of a path: its pieces, without the empty ones.
pub open spec fn segments(path: Seq<char>) -> Seq<Seq<char>> {
    without_empty(pieces(path))
}

/// Splits a path into its segments.
pub fn split_segments<'a>(path: &'a str) -> (found: Vec<&'a str>)
    ensures
        found@.map_values(|s: &str| s@) == segments(path@),
{
    let length: usize = path.unicode_len();
    let mut found: Vec<&'a str> = Vec::new();
    let mut start: usize = 0;
    let mut i: usize = 0;
    let ghost mut closed: Seq<Seq<char>> = Seq::empty();
    assert(path@.take(0) == Seq::<char>::empty());
    assert(path@.subrange(0, 0) == Seq::<char>::empty());
    assert(found@.map_values(|s: &str| s@) == Seq::<Seq<char>>::empty());
    assert(pieces(path@.take(0)) == closed.push(path@.subrange(0, 0)));
    for c in chars: path.chars()
        invariant
            i == chars.index(),
            chars.seq() == path@,
            length == path@.len(),
            start <= i <= length,
            pieces(path@.take(i as int)) == closed.push(path@.subrange(start as int, i as int)),
            found@.map_values(|s: &str| s@) == without_empty(closed),
    {
        assert(path@.take(i + 1).drop_last() == path@.take(i as int));
        if c == '/' {
            let piece = path.substring_char(start, i);
            proof {
                assert(closed.push(piece@).drop_last() == closed);
                closed = closed.push(piece@);
            }
            if start < i {
                let ghost before = found@;
                found.push(piece);
                assert(found@.map_values(|s: &str| s@) == before.map_values(|s: &str| s@).push(
                    piece@,
                ));
            }
            start = i + 1;
            assert(path@.subrange(start as int, i + 1) == Seq::<char>::empty());
        } else {
            assert(path@.subrange(start as int, i + 1) == path@.subrange(
                start as int,
                i as int,
            ).push(c));
            assert(closed.push(path@.subrange(start as int, i as int)).drop_last() == closed);
        }
        i = i + 1;
    }
    assert(path@.take(length as int) == path@);
    let last = path.substring_char(start, length);
    assert(closed.push(last@).drop_last() == closed);
    if start < length {
        let ghost before = found@;
        found.push(last);
        assert(found@.map_values(|s: &str| s@) == before.map_values(|s: &str| s@).push(last@));
    }
    found
}

/// Trailing slashes do not change the segments of a path.
pub proof fn law_trailing_slash_is_ignored(path: Seq<char>)
    ensures
        segments(path.push('/')) == segments(path),
{
    assert(path.push('/').drop_last() == path);
    assert(pieces(path).push(Seq::<char>::empty()).drop_last() == pieces(path));
}

/// The parameters that name a key set.
pub open spec fn id_params(id: Seq<char>) -> Json {
    Json::Object(map!["id"@ => Json::Text(id)])
}

/// The parameters that name a quote.
pub open spec fn quote_params(id: Seq<char>) -> Json {
    Json::Object(
        map!["id"@ => Json::Text(id), "payment_method"@ => Json::Text("bolt11"@)],
    )
}

/// No parameters.
pub open spec fn no_params() -> Json {
    Json::Object(empty_object())
}

/// The operation that a request for a path asks for, and the parameters that
/// the path holds: the routes of the HTTP API.
pub open spec fn route(segments: Seq<Seq<char>>, is_post: bool) -> Option<(Operation, Json)> {
    let s = segments;
    if s.len() < 2 || s[0] != "v1"@ {
        None
    } else if !is_post {
        if s.len() == 2 && s[1] == "keys"@ {
            Some((Operation::GetKeys, no_params()))
        } else if s.len() == 3 && s[1] == "keys"@ {
            Some((Operation::GetKeyById, id_params(s[2])))
        } else if s.len() == 2 && s[1] == "keysets"@ {
            Some((Operation::GetKeysets, no_params()))
        } else if s.len() == 5 && s[1] == "mint"@ && s[2] == "quote"@ && s[3] == "bolt11"@ {
            Some((Operation::GetMintQuote, quote_params(s[4])))
        } else if s.len() == 5 && s[1] == "melt"@ && s[2] == "quote"@ && s[3] == "bolt11"@ {
            Some((Operation::GetMeltQuote, quote_params(s[4])))
        } else if s.len() == 2 && s[1] == "info"@ {
            Some((Operation::GetInfo, no_params()))
        } else {
            None
        }
    } else {
        if s.len() == 4 && s[1] == "mint"@ && s[2] == "quote"@ && s[3] == "bolt11"@ {
            Some((Operation::PostMintQuote, no_params()))
        } else if s.len() == 3 && s[1] == "mint"@ && s[2] == "bolt11"@ {
            Some((Operation::PostMint, no_params()))
        } else if s.len() == 4 && s[1] == "melt"@ && s[2] == "quote"@ && s[3] == "bolt11"@ {
            Some((Operation::PostMeltQuote, no_params()))
        } else if s.len() == 3 && s[1] == "melt"@ && s[2] == "bolt11"@ {
            Some((Operation::PostMelt, no_params()))
        } else if s.len() == 2 && s[1] == "swap"@ {
            Some((Operation::PostSwap, no_params()))
        } else if s.len() == 2 && s[1] == "checkstate"@ {
            Some((Operation::CheckState, no_params()))
        } else if s.len() == 2 && s[1] == "restore"@ {
            Some((Operation::Restore, no_params()))
        } else {
            None
        }
    }
}

/// The error for a path that has no route.
pub open spec fn unknown_path(path: Seq<char>, is_post: bool) -> TransportErrorView {
    TransportErrorView::Custom(
        "IrohAsync: unknown URL path '"@ + path + "' (is_post="@ + (if is_post {
            "true"@
        } else {
            "false"@
        }) + ")"@,
    )
}

/// The result of mapping a request for a path: the name of the method and the
/// parameters that the path holds, or the error that the path has no route.
pub open spec fn mapped(
    path: Seq<char>,
    is_post: bool,
    result: Result<(&'static str, Value), TransportError>,
) -> bool {
    match route(segments(path), is_post) {
        Some((operation, params)) => result matches Ok((method, value)) && method@
            == operation.name() && json_of(value) == params,
        None => result matches Err(error) && error@ == unknown_path(path, is_post),
    }
}

fn no_params_value() -> (params: Value)
    ensures
        json_of(params) == no_params(),
{
    json::object(json::no_members())
}

fn id_params_value(id: &str) -> (params: Value)
    ensures
        json_of(params) == id_params(id@),
{
    let mut members = json::no_members();
    json::set_member(&mut members, "id".to_string(), json::text(id));
    json::object(members)
}

fn quote_params_value(id: &str) -> (params: Value)
    ensures
        json_of(params) == quote_params(id@),
{
    let mut members = json::no_members();
    json::set_member(&mut members, "id".to_string(), json::text(id));
    json::set_member(&mut members, "payment_method".to_string(), json::text("bolt11"));
    json::object(members)
}

/// The operation that a request for a path with these segments asks for, and
/// the parameters that the path holds.
fn route_segments(found: &Vec<&str>, is_post: bool) -> (result: Option<(Operation, Value)>)
    ensures
        match route(found@.map_values(|s: &str| s@), is_post) {
            Some((operation, params)) => result matches Some((o, value)) && o == operation
                && json_of(value) == params,
            None => result is None,
        },
{
    let ghost s = found@.map_values(|s: &str| s@);
    let count: usize = found.len();
    if count < 2 || !same_text(found[0], "v1") {
        return None;
    }
    assert(s[0] == found@[0]@ && s[1] == found@[1]@);
    let topic = found[1];
    if count == 2 {
        if !is_post {
            if same_text(topic, "keys") {
                Some((Operation::GetKeys, no_params_value()))
            } else if same_text(topic, "keysets") {
                Some((Operation::GetKeysets, no_params_value()))
            } else if same_text(topic, "info") {
                Some((Operation::GetInfo, no_params_value()))
            } else {
                None
            }
        } else if same_text(topic, "swap") {
            Some((Operation::PostSwap, no_params_value()))
        } else if same_text(topic, "checkstate") {
            Some((Operation::CheckState, no_params_value()))
        } else if same_text(topic, "restore") {
            Some((Operation::Restore, no_params_value()))
        } else {
            None
        }
    } else if count == 3 {
        assert(s[2] == found@[2]@);
        if !is_post {
            if same_text(topic, "keys") {
                Some((Operation::GetKeyById, id_params_value(found[2])))
            } else {
                None
            }
        } else if !same_text(found[2], "bolt11") {
            None
        } else if same_text(topic, "mint") {
            Some((Operation::PostMint, no_params_value()))
        } else if same_text(topic, "melt") {
            Some((Operation::PostMelt, no_params_value()))
        } else {
            None
        }
    } else if count == 4 {
        assert(s[2] == found@[2]@ && s[3] == found@[3]@);
        if !is_post || !same_text(found[2], "quote") || !same_text(found[3], "bolt11") {
            None
        } else if same_text(topic, "mint") {
            Some((Operation::PostMintQuote, no_params_value()))
        } else if same_text(topic, "melt") {
            Some((Operation::PostMeltQuote, no_params_value()))
        } else {
            None
        }
    } else if count == 5 {
        assert(s[2] == found@[2]@ && s[3] == found@[3]@ && s[4] == found@[4]@);
        if is_post || !same_text(found[2], "quote") || !same_text(found[3], "bolt11") {
            None
        } else if same_text(topic, "mint") {
            Some((Operation::GetMintQuote, quote_params_value(found[4])))
        } else if same_text(topic, "melt") {
            Some((Operation::GetMeltQuote, quote_params_value(found[4])))
        } else {
            None
        }
    } else {
        None
    }
}

/// Extract the JSON-RPC method name and any path-derived params from a path.
pub fn path_to_method(path: &str, is_post: bool) -> (result: Result<
    (&'static str, Value),
    TransportError,
>)
    ensures
        mapped(path@, is_post, result),
{
    let found = split_segments(path);
    match route_segments(&found, is_post) {
        Some((operation, params)) => Ok((operation.method(), params)),
        None => {
            let mut text = join("IrohAsync: unknown URL path '", path);
            text.append("' (is_post=");
            if is_post {
                text.append("true");
            } else {
                text.append("false");
            }
            text.append(")");
            Err(TransportError::Custom(text))
        },
    }
}

/// Extract the JSON-RPC method name and any path-derived params from a URL.
///
/// `is_post` indicates whether the call is a POST request (body params are
/// merged in by the caller; this function only extracts path-segment params).
pub fn url_to_method(url: &Url, is_post: bool) -> (result: Result<
    (&'static str, Value),
    TransportError,
>)
    ensures
        mapped(url_path(*url), is_post, result),
{
    path_to_method(path_of(url), is_post)
}

/// The parameters of a POST request: the members of its body and of its path,
/// those of the path where both have one. A body that is no object is passed on
/// as it is.
pub open spec fn merged(body: Json, path_params: Json) -> Json {
    match (body, path_params) {
        (Json::Object(in_body), Json::Object(in_path)) => if in_path == empty_object() {
            body
        } else {
            Json::Object(in_body.union_prefer_right(in_path))
        },
        _ => body,
    }
}

/// Merges the parameters that a path holds into the body of a POST request.
pub fn merge_params(body: Value, path_params: &Value) -> (params: Value)
    ensures
        json_of(params) == merged(json_of(body), json_of(*path_params)),
{
    let in_path = match json::as_object(path_params) {
        Some(members) => members,
        None => return body,
    };
    if json::has_no_members(in_path) {
        return body;
    }
    let mut all = match json::as_object(&body) {
        Some(members) => json::copy_members(members),
        None => return body,
    };
    let ghost in_body = members_of(all);
    let entries = json::list_members(in_path);
    let mut i: usize = 0;
    while i < entries.len()
        invariant
            i <= entries@.len(),
            forall|j: int|
                #![trigger entries@[j]]
                0 <= j < entries@.len() ==> members_of(*in_path).contains_key(entries@[j].0@)
                    && members_of(*in_path)[entries@[j].0@] == json_of(entries@[j].1),
            forall|name: Seq<char>| #[trigger]
                members_of(all).contains_key(name) <==> in_body.contains_key(name) || exists|j: int|
                    0 <= j < i && (#[trigger] entries@[j]).0@ == name,
            forall|name: Seq<char>| #[trigger]
                members_of(all).contains_key(name) ==> members_of(all)[name] == if exists|j: int|
                    0 <= j < i && (#[trigger] entries@[j]).0@ == name {
                    members_of(*in_path)[name]
                } else {
                    in_body[name]
                },
        decreases entries@.len() - i,
    {
        let ghost before = members_of(all);
        let name = entries[i].0.clone();
        let value = entries[i].1.clone();
        json::set_member(&mut all, name, value);
        i = i + 1;
    }
    proof {
        let together = in_body.union_prefer_right(members_of(*in_path));
        assert forall|name: Seq<char>|
            members_of(all).contains_key(name) <==> #[trigger] together.contains_key(name) by {}
        assert(members_of(all) =~= together);
    }
    json::object(all)
}

/// The JSON-RPC call for a GET request.
pub fn http_get(url: &Url) -> (result: Result<(&'static str, Value), TransportError>)
    ensures
        mapped(url_path(*url), false, result),
{
    url_to_method(url, false)
}

/// The JSON-RPC call for a POST request with this body, or with a body that
/// could not be converted to JSON.
pub fn http_post(url: &Url, body: Result<Value, String>) -> (result: Result<
    (&'static str, Value),
    TransportError,
>)
    ensures
        match route(segments(url_path(*url)), true) {
            None => result matches Err(error) && error@ == unknown_path(url_path(*url), true),
            Some((operation, path_params)) => match body {
                Ok(value) => result matches Ok((method, params)) && method@ == operation.name()
                    && json_of(params) == merged(json_of(value), path_params),
                Err(failure) => result matches Err(error) && error@ == TransportErrorView::Custom(
                    failure@,
                ),
            },
        },
{
    match url_to_method(url, true) {
        Err(error) => Err(error),
        Ok((method, path_params)) => match body {
            Err(failure) => Err(TransportError::Custom(failure)),
            Ok(value) => Ok((method, merge_params(value, &path_params))),
        },
    }
}

/// The path of a POST request holds no parameters, so that its body is passed
/// on as it is.
pub proof fn law_post_body_is_passed_on(path: Seq<char>, body: Json)
    requires
        route(segments(path), true) is Some,
    ensures
        route(segments(path), true).unwrap().1 == no_params(),
        merged(body, route(segments(path), true).unwrap().1) == body,
{
}

/// A trailing slash does not change what a path is mapped to.
pub proof fn law_trailing_slash_keeps_the_route(path: Seq<char>, is_post: bool)
    ensures
        route(segments(path.push('/')), is_post) == route(segments(path), is_post),
{
    law_trailing_slash_is_ignored(path);
}

/// A path is not served both to GET and to POST requests.
pub proof fn law_get_and_post_paths_differ(path: Seq<char>)
    ensures
        !(route(segments(path), false) is Some && route(segments(path), true) is Some),
{
    reveal_strlit("keys");
    reveal_strlit("keysets");
    reveal_strlit("info");
    reveal_strlit("swap");
    reveal_strlit("checkstate");
    reveal_strlit("restore");
    reveal_strlit("mint");
    reveal_strlit("melt");
    assert("keys"@[0] == 'k' && "keysets"@[0] == 'k' && "info"@[0] == 'i');
    assert("swap"@[0] == 's' && "checkstate"@[0] == 'c' && "restore"@[0] == 'r');
    assert("mint"@[0] == 'm' && "melt"@[0] == 'm');
}

/// A path has pieces.
proof fn lemma_pieces_exist(path: Seq<char>)
    ensures
        pieces(path).len() > 0,
    decreases path.len(),
{
    if path.len() > 0 {
        lemma_pieces_exist(path.drop_last());
    }
}

/// A slash parts the pieces of what is before it from those of what is behind it.
proof fn lemma_pieces_of_parts(before: Seq<char>, behind: Seq<char>)
    ensures
        pieces(before.push('/') + behind) == pieces(before) + pieces(behind),
    decreases behind.len(),
{
    let whole = before.push('/') + behind;
    if behind.len() == 0 {
        assert(whole =~= before.push('/'));
        assert(whole.drop_last() =~= before);
        assert(pieces(whole) =~= pieces(before) + pieces(behind));
    } else {
        let less = behind.drop_last();
        assert(whole.drop_last() =~= before.push('/') + less);
        assert(whole.last() == behind.last());
        lemma_pieces_of_parts(before, less);
        lemma_pieces_exist(less);
        let joined = pieces(before) + pieces(less);
        assert(joined.last() == pieces(less).last());
        assert(joined.drop_last() =~= pieces(before) + pieces(less).drop_last());
        assert(pieces(whole) =~= pieces(before) + pieces(behind));
    }
}

/// Empty texts are left out of two lists as they are left out of each.
proof fn lemma_without_empty_of_parts(first: Seq<Seq<char>>, second: Seq<Seq<char>>)
    ensures
        without_empty(first + second) == without_empty(first) + without_empty(second),
    decreases second.len(),
{
    if second.len() == 0 {
        assert(first + second =~= first);
        assert(without_empty(first) + without_empty(second) =~= without_empty(first));
    } else {
        let less = second.drop_last();
        assert((first + second).drop_last() =~= first + less);
        assert((first + second).last() == second.last());
        lemma_without_empty_of_parts(first, less);
        assert(without_empty(first + second) =~= without_empty(first) + without_empty(second));
    }
}

/// A slash parts the segments of a path: they are those of what is before it and
/// then those of what is behind it.
pub proof fn law_slash_parts_the_segments(before: Seq<char>, behind: Seq<char>)
    ensures
        segments(before.push('/') + behind) == segments(before) + segments(behind),
{
    lemma_pieces_of_parts(before, behind);
    lemma_without_empty_of_parts(pieces(before), pieces(behind));
}

/// A text without slashes is its own only piece.
proof fn lemma_one_piece(text: Seq<char>)
    requires
        forall|i: int| 0 <= i < text.len() ==> #[trigger] text[i] != '/',
    ensures
        pieces(text) == seq![text],
    decreases text.len(),
{
    if text.len() == 0 {
        assert(text =~= Seq::<char>::empty());
    } else {
        let less = text.drop_last();
        assert forall|i: int| 0 <= i < less.len() implies #[trigger] less[i] != '/' by {
            assert(text[i] != '/');
        }
        lemma_one_piece(less);
        assert(text.last() != '/');
        assert(less.push(text.last()) =~= text);
        assert(pieces(text) =~= seq![text]);
    }
}

/// A text without slashes is its own only segment, however long it is and
/// whatever else it is made of; an empty text has none.
pub proof fn law_text_without_slashes_is_one_segment(text: Seq<char>)
    requires
        forall|i: int| 0 <= i < text.len() ==> #[trigger] text[i] != '/',
    ensures
        text.len() > 0 ==> segments(text) == seq![text],
        text.len() == 0 ==> segments(text) == Seq::<Seq<char>>::empty(),
{
    lemma_one_piece(text);
    let single = seq![text];
    assert(single.drop_last() =~= Seq::<Seq<char>>::empty());
    assert(without_empty(single.drop_last()) =~= Seq::<Seq<char>>::empty());
    if text.len() > 0 {
        assert(without_empty(single) =~= single);
    }
}

/// The segments of a path that goes on with one more segment.
proof fn lemma_one_more_segment(path: Seq<char>, text: Seq<char>)
    requires
        text.len() > 0,
        forall|i: int| 0 <= i < text.len() ==> #[trigger] text[i] != '/',
    ensures
        segments(path.push('/') + text) == segments(path).push(text),
{
    law_slash_parts_the_segments(path, text);
    law_text_without_slashes_is_one_segment(text);
    assert(segments(path) + seq![text] =~= segments(path).push(text));
}

/// The segments of a path of up to five texts, each behind a slash.
proof fn lemma_segments_of_texts(texts: Seq<Seq<char>>)
    requires
        forall|k: int| 0 <= k < texts.len() ==> (#[trigger] texts[k]).len() > 0,
        forall|k: int, i: int|
            0 <= k < texts.len() && 0 <= i < texts[k].len() ==> #[trigger] texts[k][i] != '/',
    ensures
        segments(path_with(texts)) == texts,
    decreases texts.len(),
{
    if texts.len() == 0 {
        law_text_without_slashes_is_one_segment(path_with(texts));
        assert(segments(path_with(texts)) =~= texts);
    } else {
        let less = texts.drop_last();
        assert forall|k: int| 0 <= k < less.len() implies (#[trigger] less[k]).len() > 0 by {
            assert(texts[k].len() > 0);
        }
        assert forall|k: int, i: int|
            0 <= k < less.len() && 0 <= i < less[k].len() implies #[trigger] less[k][i] != '/' by {
            assert(texts[k][i] != '/');
        }
        lemma_segments_of_texts(less);
        let last = texts.last();
        assert(last.len() > 0) by {
            assert(texts[texts.len() - 1].len() > 0);
        }
        assert forall|i: int| 0 <= i < last.len() implies #[trigger] last[i] != '/' by {
            assert(texts[texts.len() - 1][i] != '/');
        }
        lemma_one_more_segment(path_with(less), last);
        assert(less.push(last) =~= texts);
    }
}

/// The path with these segments: each of them behind a slash.
pub open spec fn path_with(texts: Seq<Seq<char>>) -> Seq<char>
    decreases texts.len(),
{
    if texts.len() == 0 {
        Seq::empty()
    } else {
        path_with(texts.drop_last()).push('/') + texts.last()
    }
}

/// A path is split into what it was put together from: texts that are not empty
/// and have no slashes, each behind a slash, are the segments of the path.
pub proof fn law_segments_are_what_a_path_is_made_of(texts: Seq<Seq<char>>)
    requires
        forall|k: int| 0 <= k < texts.len() ==> (#[trigger] texts[k]).len() > 0,
        forall|k: int, i: int|
            0 <= k < texts.len() && 0 <= i < texts[k].len() ==> #[trigger] texts[k][i] != '/',
    ensures
        segments(path_with(texts)) == texts,
{
    lemma_segments_of_texts(texts);
}

/// The segments of the fixed beginnings of paths that end with an identifier.
proof fn lemma_beginnings()
    ensures
        segments("/v1/keys"@) == seq!["v1"@, "keys"@],
        segments("/v1/mint/quote/bolt11"@) == seq!["v1"@, "mint"@, "quote"@, "bolt11"@],
        segments("/v1/melt/quote/bolt11"@) == seq!["v1"@, "melt"@, "quote"@, "bolt11"@],
{
    reveal_strlit("v1");
    reveal_strlit("keys");
    reveal_strlit("mint");
    reveal_strlit("melt");
    reveal_strlit("quote");
    reveal_strlit("bolt11");
    reveal_strlit("/v1/keys");
    reveal_strlit("/v1/mint/quote/bolt11");
    reveal_strlit("/v1/melt/quote/bolt11");
    let root = Seq::<char>::empty();
    law_text_without_slashes_is_one_segment(root);
    lemma_one_more_segment(root, "v1"@);
    let v1 = root.push('/') + "v1"@;
    assert(segments(v1) =~= seq!["v1"@]);
    lemma_one_more_segment(v1, "keys"@);
    assert(v1.push('/') + "keys"@ =~= "/v1/keys"@);
    assert(segments("/v1/keys"@) =~= seq!["v1"@, "keys"@]);
    lemma_one_more_segment(v1, "mint"@);
    let mint = v1.push('/') + "mint"@;
    lemma_one_more_segment(mint, "quote"@);
    let mint_quote = mint.push('/') + "quote"@;
    lemma_one_more_segment(mint_quote, "bolt11"@);
    assert(mint_quote.push('/') + "bolt11"@ =~= "/v1/mint/quote/bolt11"@);
    assert(segments("/v1/mint/quote/bolt11"@) =~= seq!["v1"@, "mint"@, "quote"@, "bolt11"@]);
    lemma_one_more_segment(v1, "melt"@);
    let melt = v1.push('/') + "melt"@;
    lemma_one_more_segment(melt, "quote"@);
    let melt_quote = melt.push('/') + "quote"@;
    lemma_one_more_segment(melt_quote, "bolt11"@);
    assert(melt_quote.push('/') + "bolt11"@ =~= "/v1/melt/quote/bolt11"@);
    assert(segments("/v1/melt/quote/bolt11"@) =~= seq!["v1"@, "melt"@, "quote"@, "bolt11"@]);
}

/// Every identifier has a route: whatever text a GET of a key set, of a mint
/// quote or of a melt quote ends with, if it is not empty and has no slash, the
/// path is mapped to the operation that looks it up, with that identifier in the
/// parameters as it stands.
pub proof fn law_every_identifier_has_a_route(id: Seq<char>)
    requires
        id.len() > 0,
        forall|i: int| 0 <= i < id.len() ==> #[trigger] id[i] != '/',
    ensures
        route(segments("/v1/keys/"@ + id), false) matches Some((operation, params)) && operation
            == Operation::GetKeyById && member_of(params, "id"@) == Some(Json::Text(id)) && (
        forall|name: Seq<char>| #[trigger] member_of(params, name) is Some ==> name == "id"@),
        route(segments("/v1/mint/quote/bolt11/"@ + id), false) matches Some((operation, params))
            && operation == Operation::GetMintQuote && member_of(params, "id"@) == Some(
            Json::Text(id),
        ) && member_of(params, "payment_method"@) == Some(Json::Text("bolt11"@)) && (forall|
            name: Seq<char>,
        | #[trigger]
            member_of(params, name) is Some ==> name == "id"@ || name == "payment_method"@),
        route(segments("/v1/melt/quote/bolt11/"@ + id), false) matches Some((operation, params))
            && operation == Operation::GetMeltQuote && member_of(params, "id"@) == Some(
            Json::Text(id),
        ) && member_of(params, "payment_method"@) == Some(Json::Text("bolt11"@)) && (forall|
            name: Seq<char>,
        | #[trigger]
            member_of(params, name) is Some ==> name == "id"@ || name == "payment_method"@),
{
    reveal_strlit("/v1/keys");
    reveal_strlit("/v1/keys/");
    reveal_strlit("/v1/mint/quote/bolt11");
    reveal_strlit("/v1/mint/quote/bolt11/");
    reveal_strlit("/v1/melt/quote/bolt11");
    reveal_strlit("/v1/melt/quote/bolt11/");
    reveal_strlit("id");
    reveal_strlit("payment_method");
    reveal_strlit("mint");
    reveal_strlit("melt");
    reveal_strlit("keys");
    assert("mint"@[1] == 'i' && "melt"@[1] == 'e');
    assert("id"@.len() == 2 && "payment_method"@.len() == 14);
    lemma_beginnings();
    lemma_one_more_segment("/v1/keys"@, id);
    lemma_one_more_segment("/v1/mint/quote/bolt11"@, id);
    lemma_one_more_segment("/v1/melt/quote/bolt11"@, id);
    assert("/v1/keys/"@ + id =~= "/v1/keys"@.push('/') + id);
    assert("/v1/mint/quote/bolt11/"@ + id =~= "/v1/mint/quote/bolt11"@.push('/') + id);
    assert("/v1/melt/quote/bolt11/"@ + id =~= "/v1/melt/quote/bolt11"@.push('/') + id);
}

/// The routes of the API, each of them and no others: a path is mapped to an
/// operation exactly if its segments are those of the operation and the request
/// is a GET or a POST as the operation has it. Only the path of an operation that
/// looks something up holds parameters.
pub proof fn law_routes_of_the_api(s: Seq<Seq<char>>, is_post: bool)
    ensures
        ({
            let found = route(s, is_post);
            let none = Json::Object(Map::<Seq<char>, Json>::empty());
            &&& found == Some((Operation::GetKeys, none)) <==> !is_post && s == seq![
                "v1"@,
                "keys"@,
            ]
            &&& found == Some((Operation::GetKeysets, none)) <==> !is_post && s == seq![
                "v1"@,
                "keysets"@,
            ]
            &&& found == Some((Operation::GetInfo, none)) <==> !is_post && s == seq![
                "v1"@,
                "info"@,
            ]
            &&& found == Some((Operation::PostMintQuote, none)) <==> is_post && s == seq![
                "v1"@,
                "mint"@,
                "quote"@,
                "bolt11"@,
            ]
            &&& found == Some((Operation::PostMint, none)) <==> is_post && s == seq![
                "v1"@,
                "mint"@,
                "bolt11"@,
            ]
            &&& found == Some((Operation::PostMeltQuote, none)) <==> is_post && s == seq![
                "v1"@,
                "melt"@,
                "quote"@,
                "bolt11"@,
            ]
            &&& found == Some((Operation::PostMelt, none)) <==> is_post && s == seq![
                "v1"@,
                "melt"@,
                "bolt11"@,
            ]
            &&& found == Some((Operation::PostSwap, none)) <==> is_post && s == seq![
                "v1"@,
                "swap"@,
            ]
            &&& found == Some((Operation::CheckState, none)) <==> is_post && s == seq![
                "v1"@,
                "checkstate"@,
            ]
            &&& found == Some((Operation::Restore, none)) <==> is_post && s == seq![
                "v1"@,
                "restore"@,
            ]
            &&& found matches Some((operation, params)) ==> {
                &&& operation is GetKeyById ==> !is_post && s == seq!["v1"@, "keys"@, s[2]]
                &&& operation is GetMintQuote ==> !is_post && s == seq![
                    "v1"@,
                    "mint"@,
                    "quote"@,
                    "bolt11"@,
                    s[4],
                ]
                &&& operation is GetMeltQuote ==> !is_post && s == seq![
                    "v1"@,
                    "melt"@,
                    "quote"@,
                    "bolt11"@,
                    s[4],
                ]
                &&& params == none || operation is GetKeyById || operation is GetMintQuote
                    || operation is GetMeltQuote
            }
        }),
{
    reveal_strlit("keys");
    reveal_strlit("keysets");
    reveal_strlit("info");
    reveal_strlit("swap");
    reveal_strlit("checkstate");
    reveal_strlit("restore");
    reveal_strlit("mint");
    reveal_strlit("melt");
    assert("keys"@.len() == 4 && "keysets"@.len() == 7 && "info"@.len() == 4 && "swap"@.len() == 4
        && "checkstate"@.len() == 10 && "restore"@.len() == 7 && "mint"@.len() == 4
        && "melt"@.len() == 4);
    assert("keys"@[0] == 'k' && "info"@[0] == 'i' && "swap"@[0] == 's' && "mint"@[1] == 'i'
        && "melt"@[1] == 'e');
    assert(s.len() == 2 && s[0] == "v1"@ && s[1] == "keys"@ <==> s =~= seq!["v1"@, "keys"@]);
    assert(s.len() == 2 && s[0] == "v1"@ && s[1] == "keysets"@ <==> s =~= seq!["v1"@, "keysets"@]);
    assert(s.len() == 2 && s[0] == "v1"@ && s[1] == "info"@ <==> s =~= seq!["v1"@, "info"@]);
    assert(s.len() == 2 && s[0] == "v1"@ && s[1] == "swap"@ <==> s =~= seq!["v1"@, "swap"@]);
    assert(s.len() == 2 && s[0] == "v1"@ && s[1] == "checkstate"@ <==> s =~= seq!["v1"@, "checkstate"@]);
    assert(s.len() == 2 && s[0] == "v1"@ && s[1] == "restore"@ <==> s =~= seq!["v1"@, "restore"@]);
    assert(s.len() == 3 && s[0] == "v1"@ && s[1] == "mint"@ && s[2] == "bolt11"@ <==> s =~= seq!["v1"@, "mint"@, "bolt11"@]);
    assert(s.len() == 3 && s[0] == "v1"@ && s[1] == "melt"@ && s[2] == "bolt11"@ <==> s =~= seq!["v1"@, "melt"@, "bolt11"@]);
    assert(s.len() == 4 && s[0] == "v1"@ && s[1] == "mint"@ && s[2] == "quote"@ && s[3] == "bolt11"@ <==> s =~= seq!["v1"@, "mint"@, "quote"@, "bolt11"@]);
    assert(s.len() == 4 && s[0] == "v1"@ && s[1] == "melt"@ && s[2] == "quote"@ && s[3] == "bolt11"@ <==> s =~= seq!["v1"@, "melt"@, "quote"@, "bolt11"@]);
    if s.len() == 3 && s[0] == "v1"@ && s[1] == "keys"@ {
        assert(s =~= seq!["v1"@, "keys"@, s[2]]);
    }
    if s.len() == 5 && s[0] == "v1"@ && s[2] == "quote"@ && s[3] == "bolt11"@ {
        assert(s =~= seq!["v1"@, s[1], "quote"@, "bolt11"@, s[4]]);
    }
}

/// A path without a route is an error that tells the path and the kind of the
/// request.
pub proof fn law_unknown_path_is_told(path: Seq<char>)
    ensures
        unknown_path(path, true) == TransportErrorView::Custom(
            "IrohAsync: unknown URL path '"@ + path + "' (is_post="@ + "true"@ + ")"@,
        ),
        unknown_path(path, false) == TransportErrorView::Custom(
            "IrohAsync: unknown URL path '"@ + path + "' (is_post="@ + "false"@ + ")"@,
        ),
{
}

/// What a path is mapped to is what its segments have as route: the name of the
/// operation's method and the parameters of the path, or the error for the path.
pub proof fn law_mapping_follows_the_route(
    path: Seq<char>,
    is_post: bool,
    result: Result<(&'static str, Value), TransportError>,
)
    requires
        mapped(path, is_post, result),
    ensures
        match route(segments(path), is_post) {
            Some((operation, params)) => result matches Ok((method, value)) && method@
                == operation.name() && json_of(value) == params,
            None => result matches Err(error) && error@ == unknown_path(path, is_post),
        },
{
}

/// The parameters of a POST request hold every member of its path, and every
/// member of its body that the path does not name, and no others. A body that is
/// no object, or for whose path there is nothing to add, is passed on as it is.
pub proof fn law_merged_params_hold_both(
    in_body: Map<Seq<char>, Json>,
    in_path: Map<Seq<char>, Json>,
    body: Json,
    name: Seq<char>,
)
    ensures
        ({
            let all = merged(Json::Object(in_body), Json::Object(in_path));
            &&& in_path.contains_key(name) ==> member_of(all, name) == Some(in_path[name])
            &&& !in_path.contains_key(name) ==> member_of(all, name) == member_of(
                Json::Object(in_body),
                name,
            )
        }),
        merged(body, Json::Object(Map::<Seq<char>, Json>::empty())) == body,
        !(body is Object) ==> merged(body, Json::Object(in_path)) == body,
        !(body is Object) ==> merged(Json::Object(in_body), body) == Json::Object(in_body),
{
}

} // verus!
