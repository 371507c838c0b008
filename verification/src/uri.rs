//! Spotify URIs: turning a `spotify:` URI or an `open.spotify.com` link into a
//! canonical URI, and deciding what a URI asks the Web API for.

use vstd::prelude::*;
use crate::text::{
    count_char, split_char, has_prefix, count_occurrences, starts_with, split_on,
    lemma_split_len, lemma_count_concat, lemma_split_concat_sep, lemma_split_no_sep,
};

verus! {

/// Why a URI was refused.
#[derive(Debug)]
pub enum SpotifyError {
    /// Not a Spotify URI, or one with too few parts.
    InvalidUri,
    /// Any other failure, with its message.
    Error(String),
    /// The text is not a URL at all; the URL parser's description of why.
    UrlParse(String),
}

/// `SpotifyError` as a mathematical value.
pub enum SpotifyFault {
    InvalidUri,
    Error(Seq<char>),
    UrlParse(Seq<char>),
}

impl View for SpotifyError {
    type V = SpotifyFault;

    open spec fn view(&self) -> SpotifyFault {
        match self {
            SpotifyError::InvalidUri => SpotifyFault::InvalidUri,
            SpotifyError::Error(m) => SpotifyFault::Error(m@),
            SpotifyError::UrlParse(m) => SpotifyFault::UrlParse(m@),
        }
    }
}

/// A `Result` of a string or a `SpotifyError`, taken by views.
pub open spec fn result_view(r: Result<String, SpotifyError>) -> Result<Seq<char>, SpotifyFault> {
    match r {
        Ok(s) => Ok(s@),
        Err(e) => Err(e@),
    }
}

/// What the URI logic reads of a parsed URL: its host and its path segments
/// (`None` where the URL has no host, or cannot be a base and so has no segments).
#[derive(Debug)]
pub struct WebUrl {
    pub host: Option<String>,
    pub path_segments: Option<Vec<String>>,
}

/// A URL as the URI logic sees it: host and path segments.
pub type WebUrlView = (Option<Seq<char>>, Option<Seq<Seq<char>>>);

impl View for WebUrl {
    type V = WebUrlView;

    open spec fn view(&self) -> WebUrlView {
        (
            match self.host {
                Some(h) => Some(h@),
                None => None,
            },
            match self.path_segments {
                Some(p) => Some(p@.map_values(|s: String| s@)),
                None => None,
            },
        )
    }
}

/// What `url::Url::parse` makes of `input`, read through `host_str` and
/// `path_segments`; on failure, the `Display` text of the parse error.
pub uninterp spec fn url_parse(input: Seq<char>) -> Result<WebUrlView, Seq<char>>;

/// Calls `url::Url::parse` on `input`. On success it hands back the URL's
/// `host_str()` and its `path_segments()`, each segment owned; on failure the
/// error's `Display` text. The contract claims only that this outcome is a
/// function of `input` (the name `url_parse`); the WHATWG parsing rules are not
/// restated here.
#[verifier::external_body]
fn parse_web_url(input: &str) -> (res: Result<WebUrl, String>)
    ensures
        match res {
            Ok(u) => url_parse(input@) == Ok::<WebUrlView, Seq<char>>(u@),
            Err(m) => url_parse(input@) == Err::<WebUrlView, Seq<char>>(m@),
        },
{
    match url::Url::parse(input) {
        Ok(url) => Ok(WebUrl {
            host: url.host_str().map(|h| h.to_string()),
            path_segments: url.path_segments().map(|segs| segs.map(|s| s.to_string()).collect()),
        }),
        Err(e) => Err(e.to_string()),
    }
}

/// The canonical URI `spotify:<kind>:<id>`.
pub open spec fn spotify_uri(kind: Seq<char>, id: Seq<char>) -> Seq<char> {
    "spotify:"@ + kind + ":"@ + id
}

/// The URI that a parsed web-player URL stands for.
pub open spec fn web_url_uri(url: WebUrlView) -> Result<Seq<char>, SpotifyFault> {
    if url.0 == Some("open.spotify.com"@) {
        match url.1 {
            None => Err(SpotifyFault::Error("Missing URL path"@)),
            Some(path) => if path.len() < 2 {
                Err(SpotifyFault::InvalidUri)
            } else {
                Ok(spotify_uri(path[0], path[1]))
            },
        }
    } else {
        Err(SpotifyFault::InvalidUri)
    }
}

/// What `Spotify::parse_uri` gives for `uri`.
pub open spec fn parse_uri_spec(uri: Seq<char>) -> Result<Seq<char>, SpotifyFault> {
    if has_prefix(uri, "spotify:"@) {
        if count_char(uri, ':') + 1 < 3 {
            Err(SpotifyFault::InvalidUri)
        } else {
            Ok(uri)
        }
    } else {
        match url_parse(uri) {
            Err(m) => Err(SpotifyFault::UrlParse(m)),
            Ok(url) => web_url_uri(url),
        }
    }
}

/// What a URI asks the Web API for.
#[derive(Debug)]
pub enum ResolveRequest<M> {
    Track { id: String, market: Option<M> },
    Playlist { id: String, market: Option<M> },
    Album { id: String, market: Option<M> },
    Artist { id: String },
    /// A kind of item this library does not fetch: the URI is handed back as it is.
    Other { uri: String },
}

/// The settings that the URI logic reads of a Spotify session: the market that
/// item lookups are made in.
#[derive(Debug)]
pub struct Spotify<M> {
    pub market: Option<M>,
}

/// A URI that `resolve_uri` accepts: `spotify:<kind>:<id>[:...]`, i.e. at least
/// three `:`-separated parts.
pub open spec fn resolvable(uri: Seq<char>) -> bool {
    count_char(uri, ':') >= 2
}

/// `req` asks for the item of kind `kind` with id `id` (a track, playlist or
/// album in `market`, or an artist), or, for any other kind, hands `uri` back.
pub open spec fn request_for<M>(
    kind: Seq<char>,
    id: Seq<char>,
    uri: Seq<char>,
    market: Option<M>,
    req: ResolveRequest<M>,
) -> bool {
    if kind == "track"@ {
        (req matches ResolveRequest::Track { id: i, market: m } && i@ == id && m == market)
    } else if kind == "playlist"@ {
        (req matches ResolveRequest::Playlist { id: i, market: m } && i@ == id && m == market)
    } else if kind == "album"@ {
        (req matches ResolveRequest::Album { id: i, market: m } && i@ == id && m == market)
    } else if kind == "artist"@ {
        (req matches ResolveRequest::Artist { id: i } && i@ == id)
    } else {
        (req matches ResolveRequest::Other { uri: u } && u@ == uri)
    }
}

/// The request that `resolve_uri` makes for `uri`, given the session's market:
/// the kind is the second `:`-separated part, the id the third.
pub open spec fn resolve_spec<M>(uri: Seq<char>, market: Option<M>, req: ResolveRequest<M>) -> bool {
    request_for(split_char(uri, ':')[1], split_char(uri, ':')[2], uri, market, req)
}

impl<M: Copy> Spotify<M> {
    /// The URI that a parsed web-player URL stands for: `spotify:<first>:<second>`
    /// from the first two path segments of an `open.spotify.com` URL.
    pub fn uri_from_web_url(url: &WebUrl) -> (res: Result<String, SpotifyError>)
        ensures
            result_view(res) == web_url_uri(url@),
    {
        let player_host = String::from_str("open.spotify.com");
        let on_player = match &url.host {
            Some(h) => *h == player_host,
            None => false,
        };
        if !on_player {
            return Err(SpotifyError::InvalidUri);
        }
        match &url.path_segments {
            None => Err(SpotifyError::Error(String::from_str("Missing URL path"))),
            Some(path) => {
                proof {
                    assert(url@.1 == Some(path@.map_values(|s: String| s@)));
                }
                if path.len() < 2 {
                    Err(SpotifyError::InvalidUri)
                } else {
                    let mut out = String::from_str("spotify:");
                    out.append(path[0].as_str());
                    out.append(":");
                    out.append(path[1].as_str());
                    Ok(out)
                }
            }
        }
    }

    /// Parse a `spotify:` URI, or an `open.spotify.com` URL, into a `spotify:` URI.
    pub fn parse_uri(uri: &str) -> (res: Result<String, SpotifyError>)
        ensures
            result_view(res) == parse_uri_spec(uri@),
            has_prefix(uri@, "spotify:"@) ==> (res is Ok <==> count_char(uri@, ':') >= 2),
            has_prefix(uri@, "spotify:"@) ==> (res matches Ok(s) ==> s@ == uri@),
            has_prefix(uri@, "spotify:"@) ==> (res is Err ==> res matches Err(SpotifyError::InvalidUri)),
            !has_prefix(uri@, "spotify:"@) && url_parse(uri@) is Err ==> (res matches Err(
                SpotifyError::UrlParse(m),
            ) && m@ == url_parse(uri@)->Err_0),
            !has_prefix(uri@, "spotify:"@) && url_parse(uri@) is Ok && url_parse(uri@)->Ok_0.0
                != Some("open.spotify.com"@) ==> (res matches Err(SpotifyError::InvalidUri)),
            ({
                let url = url_parse(uri@)->Ok_0;
                !has_prefix(uri@, "spotify:"@) && url_parse(uri@) is Ok && url.0 == Some(
                    "open.spotify.com"@,
                ) && url.1 is Some && url.1->Some_0.len() >= 2 ==> (res matches Ok(s) && s@
                    == "spotify:"@ + url.1->Some_0[0] + ":"@ + url.1->Some_0[1])
            }),
    {
        if starts_with(uri, "spotify:") {
            proof {
                lemma_split_len(uri@, ':');
            }
            if count_occurrences(uri, ':') < 2 {
                return Err(SpotifyError::InvalidUri);
            }
            return Ok(String::from_str(uri));
        }
        match parse_web_url(uri) {
            Err(m) => Err(SpotifyError::UrlParse(m)),
            Ok(url) => Self::uri_from_web_url(&url),
        }
    }

    /// Decide what `uri` asks the Web API for: a track, playlist or album in this
    /// session's market, an artist, or nothing (any other kind of item).
    pub fn resolve_uri(&self, uri: &str) -> (res: ResolveRequest<M>)
        requires
            resolvable(uri@),
        ensures
            resolve_spec(uri@, self.market, res),
            split_char(uri@, ':')[1] == "track"@ ==> (res matches ResolveRequest::Track { id, market }
                && id@ == split_char(uri@, ':')[2] && market == self.market),
            split_char(uri@, ':')[1] == "playlist"@ ==> (res matches ResolveRequest::Playlist {
                id,
                market,
            } && id@ == split_char(uri@, ':')[2] && market == self.market),
            split_char(uri@, ':')[1] == "album"@ ==> (res matches ResolveRequest::Album { id, market }
                && id@ == split_char(uri@, ':')[2] && market == self.market),
            split_char(uri@, ':')[1] == "artist"@ ==> (res matches ResolveRequest::Artist { id } && id@
                == split_char(uri@, ':')[2]),
    {
        let parts = split_on(uri, ':');
        proof {
            lemma_kinds_distinct();
            lemma_split_len(uri@, ':');
        }
        let kind = &parts[1];
        let id = parts[2].clone();
        if *kind == String::from_str("track") {
            ResolveRequest::Track { id, market: self.market }
        } else if *kind == String::from_str("playlist") {
            ResolveRequest::Playlist { id, market: self.market }
        } else if *kind == String::from_str("album") {
            ResolveRequest::Album { id, market: self.market }
        } else if *kind == String::from_str("artist") {
            ResolveRequest::Artist { id }
        } else {
            ResolveRequest::Other { uri: String::from_str(uri) }
        }
    }
}

/// The four kinds of item that `resolve_uri` fetches are spelled differently.
proof fn lemma_kinds_distinct()
    ensures
        "track"@ != "playlist"@,
        "track"@ != "album"@,
        "track"@ != "artist"@,
        "playlist"@ != "album"@,
        "playlist"@ != "artist"@,
        "album"@ != "artist"@,
{
    reveal_strlit("track");
    reveal_strlit("playlist");
    reveal_strlit("album");
    reveal_strlit("artist");
    assert("track"@[0] != "album"@[0]);
    assert("track"@[0] != "artist"@[0]);
    assert("playlist"@[0] != "album"@[0]);
    assert("album"@[1] != "artist"@[1]);
}

/// What `parse_uri` accepts: a `spotify:` URI is kept unchanged exactly when it
/// has at least three `:`-separated parts; any other text must parse as a URL
/// on `open.spotify.com` with at least two path segments, and then becomes
/// `spotify:<first segment>:<second segment>`.
pub proof fn lemma_parse_uri_accepts(uri: Seq<char>)
    ensures
        has_prefix(uri, "spotify:"@) ==> (parse_uri_spec(uri) is Ok <==> split_char(uri, ':').len()
            >= 3),
        has_prefix(uri, "spotify:"@) && parse_uri_spec(uri) is Ok ==> parse_uri_spec(uri)->Ok_0
            == uri,
        !has_prefix(uri, "spotify:"@) ==> (parse_uri_spec(uri) is Ok <==> {
            &&& url_parse(uri) is Ok
            &&& url_parse(uri)->Ok_0.0 == Some("open.spotify.com"@)
            &&& url_parse(uri)->Ok_0.1 is Some
            &&& url_parse(uri)->Ok_0.1->Some_0.len() >= 2
        }),
        !has_prefix(uri, "spotify:"@) && parse_uri_spec(uri) is Ok ==> parse_uri_spec(uri)->Ok_0
            == "spotify:"@ + url_parse(uri)->Ok_0.1->Some_0[0] + ":"@ + url_parse(
            uri,
        )->Ok_0.1->Some_0[1],
{
    lemma_split_len(uri, ':');
}

/// Resolving a URI asks for the item that its second `:`-separated part names,
/// with the third part as id, whatever the session's market (`None` included):
/// a track, playlist or album in that market, or an artist; and it asks for
/// nothing, handing the URI back, exactly when that part names none of these.
pub proof fn lemma_resolve_follows_kind<M>(uri: Seq<char>, market: Option<M>, req: ResolveRequest<M>)
    requires
        resolvable(uri),
        resolve_spec(uri, market, req),
    ensures
        ({
            let kind = split_char(uri, ':')[1];
            let id = split_char(uri, ':')[2];
            &&& kind == "track"@ ==> (req matches ResolveRequest::Track { id: i, market: m } && i@
                == id && m == market)
            &&& kind == "playlist"@ ==> (req matches ResolveRequest::Playlist { id: i, market: m }
                && i@ == id && m == market)
            &&& kind == "album"@ ==> (req matches ResolveRequest::Album { id: i, market: m } && i@
                == id && m == market)
            &&& kind == "artist"@ ==> (req matches ResolveRequest::Artist { id: i } && i@ == id)
            &&& (req is Other) <==> (kind != "track"@ && kind != "playlist"@ && kind != "album"@
                && kind != "artist"@)
            &&& req matches ResolveRequest::Other { uri: u } ==> u@ == uri
        }),
{
    lemma_kinds_distinct();
}

/// The kind of request does not depend on the market: resolving the same URI
/// in two sessions with different markets asks for the same kind of item with
/// the same id.
pub proof fn lemma_resolve_market_independent<M>(
    uri: Seq<char>,
    m1: Option<M>,
    r1: ResolveRequest<M>,
    m2: Option<M>,
    r2: ResolveRequest<M>,
)
    requires
        resolvable(uri),
        resolve_spec(uri, m1, r1),
        resolve_spec(uri, m2, r2),
    ensures
        (r1 is Track) == (r2 is Track),
        (r1 is Playlist) == (r2 is Playlist),
        (r1 is Album) == (r2 is Album),
        (r1 is Artist) == (r2 is Artist),
        (r1 is Other) == (r2 is Other),
        r1 matches ResolveRequest::Track { id: a, .. } ==> (r2 matches ResolveRequest::Track {
            id: b,
            ..
        } && a@ == b@),
        r1 matches ResolveRequest::Playlist { id: a, .. } ==> (r2 matches ResolveRequest::Playlist {
            id: b,
            ..
        } && a@ == b@),
        r1 matches ResolveRequest::Album { id: a, .. } ==> (r2 matches ResolveRequest::Album {
            id: b,
            ..
        } && a@ == b@),
        r1 matches ResolveRequest::Artist { id: a } ==> (r2 matches ResolveRequest::Artist { id: b }
            && a@ == b@),
{
    lemma_kinds_distinct();
}

/// The canonical URI built from two pieces starts with `spotify:` and holds at
/// least two colons; when neither piece holds a colon, splitting it on `:` gives
/// back `spotify`, the kind and the id.
pub proof fn lemma_spotify_uri_shape(kind: Seq<char>, id: Seq<char>)
    ensures
        has_prefix(spotify_uri(kind, id), "spotify:"@),
        count_char(spotify_uri(kind, id), ':') == count_char(kind, ':') + count_char(id, ':') + 2,
        !kind.contains(':') && !id.contains(':') ==> split_char(spotify_uri(kind, id), ':') == seq![
            "spotify"@,
            kind,
            id,
        ],
{
    reveal_strlit("spotify:");
    reveal_strlit(":");
    reveal_strlit("spotify");
    let head = "spotify"@;
    assert("spotify:"@ == head.push(':'));
    assert(":"@ == seq![':']);
    let u = spotify_uri(kind, id);
    assert(u == (head.push(':') + kind).push(':') + id);
    assert(u.subrange(0, "spotify:"@.len() as int) == "spotify:"@);
    assert(count_char(head, ':') == 0) by {
        reveal_with_fuel(count_char, 8);
    }
    assert(count_char(seq![':'], ':') == 1) by {
        reveal_with_fuel(count_char, 2);
    }
    lemma_count_concat(head, seq![':'], ':');
    assert(head + seq![':'] == head.push(':'));
    lemma_count_concat(head.push(':'), kind, ':');
    lemma_count_concat(head.push(':') + kind, seq![':'], ':');
    assert((head.push(':') + kind) + seq![':'] == (head.push(':') + kind).push(':'));
    lemma_count_concat((head.push(':') + kind).push(':'), id, ':');
    if !kind.contains(':') && !id.contains(':') {
        assert(!head.contains(':'));
        lemma_split_no_sep(head, ':');
        lemma_split_no_sep(kind, ':');
        lemma_split_no_sep(id, ':');
        lemma_split_concat_sep(head, kind, ':');
        lemma_split_concat_sep(head.push(':') + kind, id, ':');
        assert(seq![head] + seq![kind] == seq![head, kind]);
        assert(seq![head, kind] + seq![id] == seq![head, kind, id]);
    }
}

/// Whatever `parse_uri` accepts, it accepts again unchanged: its output is a
/// fixed point.
pub proof fn lemma_parse_uri_idempotent(uri: Seq<char>)
    requires
        parse_uri_spec(uri) is Ok,
    ensures
        parse_uri_spec(parse_uri_spec(uri)->Ok_0) == parse_uri_spec(uri),
{
    if !has_prefix(uri, "spotify:"@) {
        let url = url_parse(uri)->Ok_0;
        let path = url.1->Some_0;
        lemma_spotify_uri_shape(path[0], path[1]);
    }
}

/// Every URI that `parse_uri` produces starts with `spotify:` and can be handed
/// to `resolve_uri`.
pub proof fn lemma_parsed_uri_resolvable(uri: Seq<char>)
    requires
        parse_uri_spec(uri) is Ok,
    ensures
        has_prefix(parse_uri_spec(uri)->Ok_0, "spotify:"@),
        resolvable(parse_uri_spec(uri)->Ok_0),
{
    if !has_prefix(uri, "spotify:"@) {
        let url = url_parse(uri)->Ok_0;
        let path = url.1->Some_0;
        lemma_spotify_uri_shape(path[0], path[1]);
    }
}

/// A web-player link `open.spotify.com/<kind>/<id>/...` resolves to a request
/// for that kind of item with that id: resolving what `parse_uri` made of it
/// asks for exactly what the link's first two path segments name.
pub proof fn lemma_web_link_resolves<M>(uri: Seq<char>, market: Option<M>, req: ResolveRequest<M>)
    requires
        !has_prefix(uri, "spotify:"@),
        url_parse(uri) is Ok,
        url_parse(uri)->Ok_0.0 == Some("open.spotify.com"@),
        url_parse(uri)->Ok_0.1 is Some,
        url_parse(uri)->Ok_0.1->Some_0.len() >= 2,
        !url_parse(uri)->Ok_0.1->Some_0[0].contains(':'),
        !url_parse(uri)->Ok_0.1->Some_0[1].contains(':'),
        resolve_spec(parse_uri_spec(uri)->Ok_0, market, req),
    ensures
        request_for(
            url_parse(uri)->Ok_0.1->Some_0[0],
            url_parse(uri)->Ok_0.1->Some_0[1],
            parse_uri_spec(uri)->Ok_0,
            market,
            req,
        ),
{
    let path = url_parse(uri)->Ok_0.1->Some_0;
    lemma_spotify_uri_shape(path[0], path[1]);
}

} // verus!
