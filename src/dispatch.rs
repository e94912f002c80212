//! Request dispatch: decoding the form body into an operation, choosing the
//! upstream endpoint, and turning the decoded upstream answer into a fragment.

use vstd::prelude::*;

use crate::model::{Config, GatewayError, Upstream};
use crate::render::{
    episode_options, index_link, info_html, render_episode_options, render_index_link,
    render_info, render_search_options, search_options,
};
use crate::rules::{chosen_url, filter_sub, select_source, sub_only};

verus! {

/// The inbound routes. `Query` is the unified route that dispatches on the
/// first key of the body.
#[derive(Clone, Copy, Debug, PartialEq, Eq, Structural)]
pub enum Route {
    Search,
    Select,
    Info,
    Index,
    Query,
}

/// The four operations.
#[derive(Clone, Copy, Debug, PartialEq, Eq, Structural)]
pub enum OpKind {
    Search,
    Select,
    Info,
    Index,
}

/// The JSON shape that the upstream answer of an operation must have.
#[derive(Clone, Copy, Debug, PartialEq, Eq, Structural)]
pub enum Shape {
    SearchResults,
    SeriesDetail,
    SourceList,
}

/// A decoded request: an operation and its non-empty argument.
#[derive(Clone, Debug)]
pub struct Operation {
    pub kind: OpKind,
    pub argument: String,
}

impl Operation {
    pub open spec fn wf(&self) -> bool {
        self.argument@.len() > 0
    }
}

/// The key/value pairs of a form body, as text.
pub open spec fn pairs_view(v: Seq<(String, String)>) -> Seq<(Seq<char>, Seq<char>)> {
    v.map_values(|p: (String, String)| (p.0@, p.1@))
}

/// The pairs that `serde_urlencoded` decodes from a form body, or `None`
/// where it refuses the body.
pub uninterp spec fn form_pairs(body: Seq<char>) -> Option<Seq<(Seq<char>, Seq<char>)>>;

/// Relies on `serde_urlencoded::from_str::<Vec<(String, String)>>`: it decodes
/// a form body into its key/value pairs in order, depending on the text alone;
/// an empty body has no pairs.
#[verifier::external_body]
fn decode_form(body: &str) -> (r: Option<Vec<(String, String)>>)
    ensures
        match r {
            Some(v) => form_pairs(body@) == Some(pairs_view(v@)),
            None => form_pairs(body@) is None,
        },
        body@.len() == 0 ==> r is Some && r->0@.len() == 0,
{
    serde_urlencoded::from_str::<Vec<(String, String)>>(body).ok()
}

/// The operation that a route serves for a given first key, if the key is
/// the discriminator that the route expects.
pub open spec fn kind_for(route: Route, key: Seq<char>) -> Option<OpKind> {
    match route {
        Route::Search => if key == "searchbox"@ { Some(OpKind::Search) } else { None },
        Route::Select => if key == "select"@ { Some(OpKind::Select) } else { None },
        Route::Info => if key == "select"@ { Some(OpKind::Info) } else { None },
        Route::Index => if key == "index"@ { Some(OpKind::Index) } else { None },
        Route::Query => if key == "search"@ {
            Some(OpKind::Search)
        } else if key == "select"@ {
            Some(OpKind::Select)
        } else if key == "index"@ {
            Some(OpKind::Index)
        } else {
            None
        },
    }
}

/// The operation and argument that the first pair of a body asks for on a
/// route; `None` where the request is malformed.
pub open spec fn request_of(route: Route, pairs: Seq<(Seq<char>, Seq<char>)>) -> Option<
    (OpKind, Seq<char>),
> {
    if pairs.len() == 0 {
        None
    } else {
        match kind_for(route, pairs[0].0) {
            Some(k) => if pairs[0].1.len() > 0 { Some((k, pairs[0].1)) } else { None },
            None => None,
        }
    }
}

/// The result of decoding an operation from pairs that the body gave.
pub open spec fn operation_result(
    route: Route,
    pairs: Seq<(Seq<char>, Seq<char>)>,
    r: Result<Operation, GatewayError>,
) -> bool {
    match request_of(route, pairs) {
        Some((k, a)) => r is Ok && r->Ok_0.kind == k && r->Ok_0.argument@ == a,
        None => r == Err::<Operation, GatewayError>(GatewayError::MalformedRequest),
    }
}

fn text_is(s: &String, lit: &str) -> (r: bool)
    ensures
        r == (s@ == lit@),
{
    *s == String::from_str(lit)
}

fn kind_of_key(route: Route, key: &String) -> (r: Option<OpKind>)
    ensures
        r == kind_for(route, key@),
{
    match route {
        Route::Search => if text_is(key, "searchbox") { Some(OpKind::Search) } else { None },
        Route::Select => if text_is(key, "select") { Some(OpKind::Select) } else { None },
        Route::Info => if text_is(key, "select") { Some(OpKind::Info) } else { None },
        Route::Index => if text_is(key, "index") { Some(OpKind::Index) } else { None },
        Route::Query => if text_is(key, "search") {
            Some(OpKind::Search)
        } else if text_is(key, "select") {
            Some(OpKind::Select)
        } else if text_is(key, "index") {
            Some(OpKind::Index)
        } else {
            None
        },
    }
}

/// Decodes the operation from the pairs of a form body: only the first pair
/// counts, its key must be the route's discriminator and its value non-empty.
pub fn operation_from_pairs(route: Route, pairs: &Vec<(String, String)>) -> (r: Result<
    Operation,
    GatewayError,
>)
    ensures
        operation_result(route, pairs_view(pairs@), r),
        r is Ok ==> r->Ok_0.wf(),
{
    if pairs.len() == 0 {
        return Err(GatewayError::MalformedRequest);
    }
    let first = &pairs[0];
    match kind_of_key(route, &first.0) {
        Some(kind) => {
            if first.1.unicode_len() > 0 {
                Ok(Operation { kind, argument: first.1.clone() })
            } else {
                Err(GatewayError::MalformedRequest)
            }
        },
        None => Err(GatewayError::MalformedRequest),
    }
}

/// Decodes a form-encoded request body on a route into an operation;
/// `MalformedRequest` where the body is no form data or its first pair does
/// not name the route's operation with an argument.
pub fn decode_request(route: Route, body: &str) -> (r: Result<Operation, GatewayError>)
    ensures
        match form_pairs(body@) {
            Some(p) => operation_result(route, p, r),
            None => r == Err::<Operation, GatewayError>(GatewayError::MalformedRequest),
        },
        body@.len() == 0 ==> r == Err::<Operation, GatewayError>(GatewayError::MalformedRequest),
        r is Ok ==> r->Ok_0.wf(),
{
    match decode_form(body) {
        Some(pairs) => operation_from_pairs(route, &pairs),
        None => Err(GatewayError::MalformedRequest),
    }
}

/// The path below the upstream base that serves an operation.
pub open spec fn path_of(kind: OpKind, argument: Seq<char>) -> Seq<char> {
    match kind {
        OpKind::Search => argument,
        OpKind::Select => "info/"@ + argument,
        OpKind::Info => "info/"@ + argument,
        OpKind::Index => "watch/"@ + argument,
    }
}

pub open spec fn shape_for(kind: OpKind) -> Shape {
    match kind {
        OpKind::Search => Shape::SearchResults,
        OpKind::Select => Shape::SeriesDetail,
        OpKind::Info => Shape::SeriesDetail,
        OpKind::Index => Shape::SourceList,
    }
}

impl Operation {
    /// The upstream path of this operation.
    pub fn upstream_path(&self) -> (r: String)
        ensures
            r@ == path_of(self.kind, self.argument@),
    {
        match self.kind {
            OpKind::Search => self.argument.clone(),
            OpKind::Select | OpKind::Info => {
                String::from_str("info/").concat(self.argument.as_str())
            },
            OpKind::Index => String::from_str("watch/").concat(self.argument.as_str()),
        }
    }

    /// The full upstream URL of this operation.
    pub fn upstream_url(&self, config: &Config) -> (r: String)
        ensures
            r@ == config.upstream_base@ + path_of(self.kind, self.argument@),
    {
        config.upstream_base.clone().concat(self.upstream_path().as_str())
    }

    /// The shape that the upstream answer must have.
    pub fn shape(&self) -> (r: Shape)
        ensures
            r == shape_for(self.kind),
    {
        match self.kind {
            OpKind::Search => Shape::SearchResults,
            OpKind::Select | OpKind::Info => Shape::SeriesDetail,
            OpKind::Index => Shape::SourceList,
        }
    }
}

/// The fragment, or the error, that answers an operation given its decoded
/// upstream answer (`None` where the answer did not have the right shape).
pub open spec fn answer(player_base: Seq<char>, kind: OpKind, decoded: Option<Upstream>) -> Result<
    Seq<char>,
    GatewayError,
> {
    match decoded {
        None => Err(GatewayError::DecodeMalformed),
        Some(Upstream::Search(v)) => if kind == OpKind::Search {
            Ok(search_options(sub_only(v@)))
        } else {
            Err(GatewayError::DecodeMalformed)
        },
        Some(Upstream::Series(i)) => if kind == OpKind::Select {
            Ok(episode_options(i.episodes@))
        } else if kind == OpKind::Info {
            Ok(info_html(i))
        } else {
            Err(GatewayError::DecodeMalformed)
        },
        Some(Upstream::Watch(s)) => if kind == OpKind::Index {
            match chosen_url(s@) {
                Some(u) => Ok(index_link(player_base, u)),
                None => Err(GatewayError::NoSource),
            }
        } else {
            Err(GatewayError::DecodeMalformed)
        },
    }
}

/// Applies the operation's rule to its decoded upstream answer and renders
/// the fragment.
pub fn finish(config: &Config, kind: OpKind, decoded: Option<Upstream>) -> (r: Result<
    String,
    GatewayError,
>)
    ensures
        match answer(config.player_base@, kind, decoded) {
            Ok(t) => r is Ok && r->Ok_0@ == t,
            Err(e) => r == Err::<String, GatewayError>(e),
        },
{
    match decoded {
        None => Err(GatewayError::DecodeMalformed),
        Some(Upstream::Search(v)) => {
            if kind == OpKind::Search {
                let kept = filter_sub(v);
                Ok(render_search_options(&kept))
            } else {
                Err(GatewayError::DecodeMalformed)
            }
        },
        Some(Upstream::Series(i)) => {
            if kind == OpKind::Select {
                Ok(render_episode_options(&i.episodes))
            } else if kind == OpKind::Info {
                Ok(render_info(&i))
            } else {
                Err(GatewayError::DecodeMalformed)
            }
        },
        Some(Upstream::Watch(s)) => {
            if kind == OpKind::Index {
                match select_source(&s) {
                    Ok(url) => Ok(render_index_link(config, url.as_str())),
                    Err(e) => Err(e),
                }
            } else {
                Err(GatewayError::DecodeMalformed)
            }
        },
    }
}

/// A body without pairs, or whose first key is not the route's
/// discriminator, is a malformed request.
pub proof fn lemma_malformed_rejected(route: Route, pairs: Seq<(Seq<char>, Seq<char>)>)
    requires
        pairs.len() == 0 || kind_for(route, pairs[0].0) is None,
    ensures
        request_of(route, pairs) is None,
{
}

/// An upstream answer that does not decode to the operation's shape is
/// reported as malformed, whatever the operation.
pub proof fn lemma_undecodable_is_malformed(player_base: Seq<char>, kind: OpKind)
    ensures
        answer(player_base, kind, None) == Err::<Seq<char>, GatewayError>(
            GatewayError::DecodeMalformed,
        ),
{
}

} // verus!
