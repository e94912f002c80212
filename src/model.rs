//! The request-scoped values that flow through the gateway.

use vstd::prelude::*;

verus! {

/// One hit of an upstream search, with its language track (`sub` or `dub`).
#[derive(Debug)]
pub struct SearchEntry {
    pub id: String,
    pub title: String,
    pub sub_or_dub: String,
}

/// One playable source of an episode, with its quality label
/// (`default`, `backup`, ...).
#[derive(Debug)]
pub struct Source {
    pub url: String,
    pub quality: String,
}

impl Clone for SearchEntry {
    fn clone(&self) -> (r: Self)
        ensures
            r == *self,
    {
        SearchEntry {
            id: self.id.clone(),
            title: self.title.clone(),
            sub_or_dub: self.sub_or_dub.clone(),
        }
    }
}

impl Clone for Source {
    fn clone(&self) -> (r: Self)
        ensures
            r == *self,
    {
        Source { url: self.url.clone(), quality: self.quality.clone() }
    }
}

/// One episode of a series, as listed by the upstream info endpoint.
#[derive(Clone, Debug)]
pub struct EpisodeRef {
    pub id: String,
}

/// Series metadata and its episodes, in upstream order.
#[derive(Clone, Debug)]
pub struct SeriesInfo {
    pub title: String,
    pub image: String,
    pub release_date: Option<String>,
    pub description: Option<String>,
    pub status: String,
    pub total_episodes: u64,
    pub episodes: Vec<EpisodeRef>,
}

/// A decoded upstream answer, one variant per response shape.
#[derive(Clone, Debug)]
pub enum Upstream {
    Search(Vec<SearchEntry>),
    Series(SeriesInfo),
    Watch(Vec<Source>),
}

/// The ways a request can fail.
#[derive(Clone, Copy, Debug, PartialEq, Eq, Structural)]
pub enum GatewayError {
    /// The body is not form data, or its first key is not the one expected.
    MalformedRequest,
    /// The upstream service could not be reached or sent no text.
    Transport,
    /// The upstream answer does not have the expected shape.
    DecodeMalformed,
    /// No source survives the selection policy.
    NoSource,
}

/// The HTTP status that reports an error to the client.
pub open spec fn status_of(e: GatewayError) -> u16 {
    match e {
        GatewayError::MalformedRequest => 400,
        GatewayError::Transport => 502,
        GatewayError::DecodeMalformed => 502,
        GatewayError::NoSource => 404,
    }
}

/// The text that reports an error to the client.
pub open spec fn message_of(e: GatewayError) -> Seq<char> {
    match e {
        GatewayError::MalformedRequest => "malformed request"@,
        GatewayError::Transport => "upstream unreachable"@,
        GatewayError::DecodeMalformed => "malformed upstream response"@,
        GatewayError::NoSource => "no playable source"@,
    }
}

impl GatewayError {
    /// The HTTP status code for this error.
    pub fn status(&self) -> (r: u16)
        ensures
            r == status_of(*self),
    {
        match self {
            GatewayError::MalformedRequest => 400,
            GatewayError::Transport => 502,
            GatewayError::DecodeMalformed => 502,
            GatewayError::NoSource => 404,
        }
    }

    /// A short text for the body of the error response.
    pub fn message(&self) -> (r: String)
        ensures
            r@ == message_of(*self),
    {
        let text = match self {
            GatewayError::MalformedRequest => "malformed request",
            GatewayError::Transport => "upstream unreachable",
            GatewayError::DecodeMalformed => "malformed upstream response",
            GatewayError::NoSource => "no playable source",
        };
        String::from_str(text)
    }
}

/// Where the upstream service and the player live.
#[derive(Clone, Debug)]
pub struct Config {
    /// Prefix of every upstream URL, ending in `/`
    /// (`http://<upstream-host>/anime/<provider>/`).
    pub upstream_base: String,
    /// Prefix of the player link, up to and including `#`
    /// (`https://<player-host>/player/#`).
    pub player_base: String,
}

impl Config {
    pub fn new(upstream_base: String, player_base: String) -> (r: Config)
        ensures
            r.upstream_base == upstream_base,
            r.player_base == player_base,
    {
        Config { upstream_base, player_base }
    }
}

} // verus!
