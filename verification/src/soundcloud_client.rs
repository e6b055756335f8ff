//! The requests that the client makes to the SoundCloud API v2, and the
//! decisions between them: which URL each request goes to, how the chunk
//! URLs of a track are found (by track id, or from a stream URL and token
//! that the caller already has), and in which order the chunks of a track
//! are downloaded. The requests themselves are sent by the caller.
use vstd::prelude::*;
use crate::chunk_urls::{chunk_urls, extract_chunk_urls};
use crate::domain_models::SoundcloudApiError;
use crate::models::track::{Track, TrackDataView, TrackView, best_media};
use crate::text::concat_str;

verus! {

#[verifier::external_type_specification]
#[verifier::external_body]
pub struct ExUrlParseError(url::ParseError);

/// The serialization of the URL that `url::Url::parse` makes of `input`,
/// or `None` where it refuses the input.
pub uninterp spec fn url_parse(input: Seq<char>) -> Option<Seq<char>>;

/// The serialization of the URL that `url::Url::parse_with_params` makes of
/// `input` with the query pairs `params` appended, or `None` where it
/// refuses the input.
pub uninterp spec fn url_parse_with_params(
    input: Seq<char>,
    params: Seq<(Seq<char>, Seq<char>)>,
) -> Option<Seq<char>>;

/// The view of a list of query pairs.
pub open spec fn pairs_view(params: Seq<(String, String)>) -> Seq<(Seq<char>, Seq<char>)> {
    params.map_values(|p: (String, String)| (p.0@, p.1@))
}

/// Calls `url::Url::parse` and serializes the URL (`String::from`).
/// Trusted: the result is `url_parse` of the input.
#[verifier::external_body]
fn parse_url(input: &str) -> (res: Result<String, url::ParseError>)
    ensures
        res is Ok <==> url_parse(input@) is Some,
        res matches Ok(s) ==> url_parse(input@) == Some(s@),
{
    match url::Url::parse(input) {
        Ok(u) => Ok(String::from(u)),
        Err(e) => Err(e),
    }
}

/// The number of characters of a list of texts.
pub open spec fn total_chars(parts: Seq<Seq<char>>) -> nat
    decreases parts.len(),
{
    if parts.len() == 0 {
        0
    } else {
        total_chars(parts.drop_last()) + parts.last().len()
    }
}

/// The number of characters of the keys and values of query pairs.
pub open spec fn pairs_chars(params: Seq<(Seq<char>, Seq<char>)>) -> nat
    decreases params.len(),
{
    if params.len() == 0 {
        0
    } else {
        pairs_chars(params.drop_last()) + params.last().0.len() + params.last().1.len()
    }
}

/// The most characters that the texts put into one request URL may have
/// together.
pub const MAX_URL_TEXT: usize = 4000000;

/// Texts short enough to be put together into one request URL.
pub open spec fn texts_fit(parts: Seq<Seq<char>>) -> bool {
    total_chars(parts) <= MAX_URL_TEXT
}

/// An input and query pairs whose URL stays below `u32::MAX` bytes, counting
/// 1000 bytes of serialization for each character, pair and separator.
pub open spec fn url_fits(input: Seq<char>, params: Seq<(Seq<char>, Seq<char>)>) -> bool {
    1000 * (input.len() + pairs_chars(params) + 2 * params.len() + 1) <= u32::MAX
}

/// Calls `url::Url::parse_with_params` and serializes the URL
/// (`String::from`). Trusted: the result is `url_parse_with_params` of the
/// arguments, and (as its source shows: it parses `input` first and only
/// then appends the pairs) it fails exactly where `url::Url::parse` fails.
/// Appending the pairs converts offsets of the URL to `u32` and unwraps the
/// conversion, so a URL of `u32::MAX` bytes or more panics; `requires` keeps
/// the URL below that: percent-encoding writes at most 12 bytes for a
/// character, and the host's IDNA mapping and Punycode stay below 1000.
#[verifier::external_body]
fn parse_url_with_params(input: &str, params: &Vec<(String, String)>) -> (res: Result<
    String,
    url::ParseError,
>)
    requires
        url_fits(input@, pairs_view(params@)),
    ensures
        res is Ok <==> url_parse_with_params(input@, pairs_view(params@)) is Some,
        res matches Ok(s) ==> url_parse_with_params(input@, pairs_view(params@)) == Some(s@),
        res is Ok <==> url_parse(input@) is Some,
{
    match url::Url::parse_with_params(input, params.iter()) {
        Ok(u) => Ok(String::from(u)),
        Err(e) => Err(e),
    }
}

/// The error of the client for a URL that could not be parsed.
fn url_error(e: url::ParseError) -> (err: SoundcloudApiError)
    ensures
        err == SoundcloudApiError::UrlParse,
{
    SoundcloudApiError::UrlParse
}

/// The root of the SoundCloud API v2.
pub open spec fn base_url() -> Seq<char> {
    "https://api-v2.soundcloud.com"@
}

/// The outcome of building a request URL: the URL, or `UrlParse` where the
/// URL parser refused it.
pub open spec fn url_outcome(u: Option<Seq<char>>, res: Result<String, SoundcloudApiError>) -> bool {
    match u {
        Some(s) => res matches Ok(r) && r@ == s,
        None => res == Err::<String, _>(SoundcloudApiError::UrlParse),
    }
}

fn endpoint(path: &str) -> (s: String)
    ensures
        s@ == base_url() + path@,
{
    concat_str("https://api-v2.soundcloud.com", path)
}

fn pair(k: &str, v: &str) -> (p: (String, String))
    ensures
        p.0@ == k@,
        p.1@ == v@,
{
    (String::from_str(k), String::from_str(v))
}

fn with_params(input: &str, params: &Vec<(String, String)>) -> (res: Result<String, SoundcloudApiError>)
    requires
        url_fits(input@, pairs_view(params@)),
    ensures
        url_outcome(url_parse_with_params(input@, pairs_view(params@)), res),
{
    match parse_url_with_params(input, params) {
        Ok(s) => Ok(s),
        Err(e) => Err(url_error(e)),
    }
}

proof fn lemma_total_chars_push(parts: Seq<Seq<char>>, x: Seq<char>)
    ensures
        total_chars(parts.push(x)) == total_chars(parts) + x.len(),
{
    assert(parts.push(x).drop_last() =~= parts);
}

proof fn lemma_pairs_chars_push(params: Seq<(Seq<char>, Seq<char>)>, p: (Seq<char>, Seq<char>))
    ensures
        pairs_chars(params.push(p)) == pairs_chars(params) + p.0.len() + p.1.len(),
{
    assert(params.push(p).drop_last() =~= params);
}

proof fn lemma_total_chars_prefix(parts: Seq<Seq<char>>, k: int)
    requires
        0 <= k <= parts.len(),
    ensures
        total_chars(parts.take(k)) <= total_chars(parts),
    decreases parts.len() - k,
{
    if k < parts.len() {
        lemma_total_chars_prefix(parts, k + 1);
        assert(parts.take(k + 1).drop_last() =~= parts.take(k));
    } else {
        assert(parts.take(k) =~= parts);
    }
}

proof fn lemma_base_lengths()
    ensures
        base_url().len() == 29,
        "/search"@.len() == 7,
        "/track/"@.len() == 7,
        "/tracks"@.len() == 7,
        "q"@.len() == 1,
        "client_id"@.len() == 9,
        "limit"@.len() == 5,
        "offset"@.len() == 6,
        "ids"@.len() == 3,
        "track_authorization"@.len() == 19,
{
    reveal_strlit("https://api-v2.soundcloud.com");
    reveal_strlit("/search");
    reveal_strlit("/track/");
    reveal_strlit("/tracks");
    reveal_strlit("q");
    reveal_strlit("client_id");
    reveal_strlit("limit");
    reveal_strlit("offset");
    reveal_strlit("ids");
    reveal_strlit("track_authorization");
}

/// Whether texts are short enough to be put together into one request URL.
pub fn texts_fit_in_url(parts: &Vec<&str>) -> (b: bool)
    ensures
        b == texts_fit(parts@.map_values(|s: &str| s@)),
{
    let ghost views = parts@.map_values(|s: &str| s@);
    let mut total: usize = 0;
    let mut i: usize = 0;
    while i < parts.len()
        invariant
            views == parts@.map_values(|s: &str| s@),
            i <= parts@.len(),
            total == total_chars(views.take(i as int)),
            total <= MAX_URL_TEXT,
        decreases parts@.len() - i,
    {
        let l = parts[i].unicode_len();
        proof {
            assert(views.take(i + 1) =~= views.take(i as int).push(views[i as int]));
            lemma_total_chars_push(views.take(i as int), views[i as int]);
        }
        if l > MAX_URL_TEXT - total {
            proof {
                lemma_total_chars_prefix(views, i + 1);
            }
            return false;
        }
        total = total + l;
        i = i + 1;
    }
    assert(views.take(i as int) =~= views);
    true
}

/// The SoundCloud client's own settings: the application's client id, and
/// where and in which part size streamed tracks are saved in S3.
pub struct SoundCloudApi {
    pub client_id: String,
    pub bucket_name: String,
    pub part_size: usize,
}

/// Where the chunk URLs of a track are looked up next.
pub enum ResolveStep {
    /// Fetch the track data (JSON of a `Track`) from this URL.
    FetchTrack(String),
    /// Fetch the JSON object whose `url` is the playlist of chunks.
    FetchChunkListUrl(String),
    /// Fetch the text of the playlist of chunks from this URL.
    FetchPlaylist(String),
    /// The chunk URLs of the track, in playing order.
    Done(Vec<String>),
    /// The lookup cannot go on.
    Failed(SoundcloudApiError),
}

/// What came back from the request that a `ResolveStep` asked for.
pub enum ResolveEvent {
    TrackReceived(Track),
    ChunkListUrlReceived(String),
    PlaylistReceived(String),
}

pub enum ResolveStepView {
    FetchTrack(Seq<char>),
    FetchChunkListUrl(Seq<char>),
    FetchPlaylist(Seq<char>),
    Done(Seq<Seq<char>>),
    Failed(SoundcloudApiError),
}

impl View for ResolveStep {
    type V = ResolveStepView;

    open spec fn view(&self) -> ResolveStepView {
        match self {
            ResolveStep::FetchTrack(u) => ResolveStepView::FetchTrack(u@),
            ResolveStep::FetchChunkListUrl(u) => ResolveStepView::FetchChunkListUrl(u@),
            ResolveStep::FetchPlaylist(u) => ResolveStepView::FetchPlaylist(u@),
            ResolveStep::Done(urls) => ResolveStepView::Done(urls@.map_values(|s: String| s@)),
            ResolveStep::Failed(e) => ResolveStepView::Failed(*e),
        }
    }
}

pub enum ResolveEventView {
    TrackReceived(TrackView),
    ChunkListUrlReceived(Seq<char>),
    PlaylistReceived(Seq<char>),
}

impl View for ResolveEvent {
    type V = ResolveEventView;

    open spec fn view(&self) -> ResolveEventView {
        match self {
            ResolveEvent::TrackReceived(t) => ResolveEventView::TrackReceived(t@),
            ResolveEvent::ChunkListUrlReceived(u) => ResolveEventView::ChunkListUrlReceived(u@),
            ResolveEvent::PlaylistReceived(t) => ResolveEventView::PlaylistReceived(t@),
        }
    }
}

/// The URL of a search for `query`, with the client id and paging.
pub open spec fn search_url_spec(client_id: Seq<char>, query: Seq<char>, offset: Seq<char>, limit: Seq<char>) -> Option<Seq<char>> {
    url_parse_with_params(
        base_url() + "/search"@,
        seq![("q"@, query), ("client_id"@, client_id), ("limit"@, limit), ("offset"@, offset)],
    )
}

/// The URL of a playlist (without the client id, as the API accepts it).
pub open spec fn playlist_url_spec(id: Seq<char>) -> Option<Seq<char>> {
    url_parse(base_url() + "/playlists/"@ + id)
}

/// The URL of the data of one track.
pub open spec fn track_url_spec(client_id: Seq<char>, id: Seq<char>) -> Option<Seq<char>> {
    url_parse_with_params(base_url() + "/track/"@ + id, seq![("client_id"@, client_id)])
}

/// The URL of the data of several tracks, `ids` separated by commas.
pub open spec fn tracks_url_spec(client_id: Seq<char>, ids: Seq<char>) -> Option<Seq<char>> {
    url_parse_with_params(base_url() + "/tracks"@, seq![("ids"@, ids), ("client_id"@, client_id)])
}

/// The URL that answers with the location of the playlist of chunks of a
/// transcoding: the transcoding's URL with the client id and the track's
/// authorization.
pub open spec fn chunk_list_url_spec(client_id: Seq<char>, url: Seq<char>, auth: Seq<char>) -> Option<Seq<char>> {
    url_parse_with_params(url, seq![("client_id"@, client_id), ("track_authorization"@, auth)])
}

/// The step that asks for a URL, or fails where it could not be built.
pub open spec fn fetch_or_fail(u: Option<Seq<char>>, is_track: bool) -> ResolveStepView {
    match u {
        Some(s) => if is_track {
            ResolveStepView::FetchTrack(s)
        } else {
            ResolveStepView::FetchChunkListUrl(s)
        },
        None => ResolveStepView::Failed(SoundcloudApiError::UrlParse),
    }
}

/// The first step of the lookup of a track's chunks: with both a stream URL
/// and a token at hand, ask for the chunk list directly; otherwise fetch the
/// track by its id.
pub open spec fn resolve_start_spec(
    client_id: Seq<char>,
    id: Seq<char>,
    track_url: Option<Seq<char>>,
    track_token: Option<Seq<char>>,
) -> ResolveStepView {
    match (track_url, track_token) {
        (Some(u), Some(t)) => fetch_or_fail(chunk_list_url_spec(client_id, u, t), false),
        _ => fetch_or_fail(track_url_spec(client_id, id), true),
    }
}

/// The next step of the lookup after a response.
pub open spec fn resolve_next_spec(client_id: Seq<char>, ev: ResolveEventView) -> ResolveStepView {
    match ev {
        ResolveEventView::TrackReceived(TrackView::Stub(_)) => ResolveStepView::Failed(
            SoundcloudApiError::TrackDataIsNotFull,
        ),
        ResolveEventView::TrackReceived(TrackView::Full(d)) => match best_media(d.media) {
            None => ResolveStepView::Failed(SoundcloudApiError::NoMediaDataInResponse),
            Some(m) => fetch_or_fail(
                chunk_list_url_spec(client_id, m.url, d.track_authorization),
                false,
            ),
        },
        ResolveEventView::ChunkListUrlReceived(u) => ResolveStepView::FetchPlaylist(u),
        ResolveEventView::PlaylistReceived(text) => ResolveStepView::Done(chunk_urls(text)),
    }
}

/// The texts of the first step of a lookup fit into its request URL.
pub open spec fn resolve_start_fits(
    client_id: Seq<char>,
    id: Seq<char>,
    track_url: Option<Seq<char>>,
    track_token: Option<Seq<char>>,
) -> bool {
    match (track_url, track_token) {
        (Some(u), Some(t)) => texts_fit(seq![client_id, u, t]),
        _ => texts_fit(seq![client_id, id]),
    }
}

/// The texts that a response brings into the next request URL fit there.
pub open spec fn resolve_next_fits(client_id: Seq<char>, ev: ResolveEventView) -> bool {
    match ev {
        ResolveEventView::TrackReceived(TrackView::Full(d)) => match best_media(d.media) {
            Some(m) => texts_fit(seq![client_id, m.url, d.track_authorization]),
            None => true,
        },
        _ => true,
    }
}

fn borrowed(o: &Option<String>) -> (r: Option<&String>)
    ensures
        r == match o {
            Some(s) => Some(s),
            None => None::<&String>,
        },
{
    match o {
        Some(s) => Some(s),
        None => None,
    }
}

impl SoundCloudApi {
    pub fn new(client_id: String, bucket_name: String, part_size: usize) -> (api: Self)
        ensures
            api.client_id == client_id,
            api.bucket_name == bucket_name,
            api.part_size == part_size,
    {
        SoundCloudApi { client_id, bucket_name, part_size }
    }

    /// The URL of a search.
    pub fn search_url(&self, query: &str, offset: &str, limit: &str) -> (res: Result<String, SoundcloudApiError>)
        requires
            texts_fit(seq![self.client_id@, query@, offset@, limit@]),
        ensures
            url_outcome(search_url_spec(self.client_id@, query@, offset@, limit@), res),
    {
        let base = endpoint("/search");
        let mut params: Vec<(String, String)> = Vec::new();
        params.push(pair("q", query));
        params.push(pair("client_id", self.client_id.as_str()));
        params.push(pair("limit", limit));
        params.push(pair("offset", offset));
        assert(pairs_view(params@) =~= seq![("q"@, query@), ("client_id"@, self.client_id@), ("limit"@, limit@), ("offset"@, offset@)]);
        proof {
            lemma_base_lengths();
            lemma_total_chars_push(seq![self.client_id@], query@);
            lemma_total_chars_push(seq![self.client_id@, query@], offset@);
            lemma_total_chars_push(seq![self.client_id@, query@, offset@], limit@);
            lemma_total_chars_push(Seq::empty(), self.client_id@);
            assert(seq![self.client_id@] =~= Seq::<Seq<char>>::empty().push(self.client_id@));
            assert(seq![self.client_id@, query@] =~= seq![self.client_id@].push(query@));
            assert(seq![self.client_id@, query@, offset@] =~= seq![self.client_id@, query@].push(offset@));
            assert(seq![self.client_id@, query@, offset@, limit@] =~= seq![self.client_id@, query@, offset@].push(limit@));
            let p1 = seq![("q"@, query@)];
            let p2 = p1.push(("client_id"@, self.client_id@));
            let p3 = p2.push(("limit"@, limit@));
            let p4 = p3.push(("offset"@, offset@));
            assert(p1 =~= Seq::<(Seq<char>, Seq<char>)>::empty().push(("q"@, query@)));
            lemma_pairs_chars_push(Seq::empty(), ("q"@, query@));
            lemma_pairs_chars_push(p1, ("client_id"@, self.client_id@));
            lemma_pairs_chars_push(p2, ("limit"@, limit@));
            lemma_pairs_chars_push(p3, ("offset"@, offset@));
            assert(pairs_view(params@) =~= p4);
        }
        with_params(base.as_str(), &params)
    }

    /// The URL of a playlist.
    pub fn playlist_url(&self, id: &str) -> (res: Result<String, SoundcloudApiError>)
        ensures
            url_outcome(playlist_url_spec(id@), res),
    {
        let base = endpoint("/playlists/");
        let input = concat_str(base.as_str(), id);
        match parse_url(input.as_str()) {
            Ok(s) => Ok(s),
            Err(e) => Err(url_error(e)),
        }
    }

    /// The URL of the data of one track.
    pub fn track_url(&self, id: &str) -> (res: Result<String, SoundcloudApiError>)
        requires
            texts_fit(seq![self.client_id@, id@]),
        ensures
            url_outcome(track_url_spec(self.client_id@, id@), res),
    {
        let base = endpoint("/track/");
        let input = concat_str(base.as_str(), id);
        let mut params: Vec<(String, String)> = Vec::new();
        params.push(pair("client_id", self.client_id.as_str()));
        assert(pairs_view(params@) =~= seq![("client_id"@, self.client_id@)]);
        proof {
            lemma_base_lengths();
            lemma_total_chars_push(Seq::empty(), self.client_id@);
            lemma_total_chars_push(seq![self.client_id@], id@);
            assert(seq![self.client_id@] =~= Seq::<Seq<char>>::empty().push(self.client_id@));
            assert(seq![self.client_id@, id@] =~= seq![self.client_id@].push(id@));
            lemma_pairs_chars_push(Seq::empty(), ("client_id"@, self.client_id@));
            assert(seq![("client_id"@, self.client_id@)] =~= Seq::<(Seq<char>, Seq<char>)>::empty().push(("client_id"@, self.client_id@)));
        }
        with_params(input.as_str(), &params)
    }

    /// The URL of the data of several tracks.
    pub fn tracks_url(&self, ids: &str) -> (res: Result<String, SoundcloudApiError>)
        requires
            texts_fit(seq![self.client_id@, ids@]),
        ensures
            url_outcome(tracks_url_spec(self.client_id@, ids@), res),
    {
        let base = endpoint("/tracks");
        let mut params: Vec<(String, String)> = Vec::new();
        params.push(pair("ids", ids));
        params.push(pair("client_id", self.client_id.as_str()));
        assert(pairs_view(params@) =~= seq![("ids"@, ids@), ("client_id"@, self.client_id@)]);
        proof {
            lemma_base_lengths();
            lemma_total_chars_push(Seq::empty(), self.client_id@);
            lemma_total_chars_push(seq![self.client_id@], ids@);
            assert(seq![self.client_id@] =~= Seq::<Seq<char>>::empty().push(self.client_id@));
            assert(seq![self.client_id@, ids@] =~= seq![self.client_id@].push(ids@));
            let p1 = seq![("ids"@, ids@)];
            assert(p1 =~= Seq::<(Seq<char>, Seq<char>)>::empty().push(("ids"@, ids@)));
            lemma_pairs_chars_push(Seq::empty(), ("ids"@, ids@));
            lemma_pairs_chars_push(p1, ("client_id"@, self.client_id@));
            assert(pairs_view(params@) =~= p1.push(("client_id"@, self.client_id@)));
        }
        with_params(base.as_str(), &params)
    }

    /// The URL that answers with the location of the playlist of chunks.
    pub fn chunk_list_url(&self, url: &str, track_authorization: &str) -> (res: Result<String, SoundcloudApiError>)
        requires
            texts_fit(seq![self.client_id@, url@, track_authorization@]),
        ensures
            url_outcome(chunk_list_url_spec(self.client_id@, url@, track_authorization@), res),
    {
        let mut params: Vec<(String, String)> = Vec::new();
        params.push(pair("client_id", self.client_id.as_str()));
        params.push(pair("track_authorization", track_authorization));
        assert(pairs_view(params@) =~= seq![("client_id"@, self.client_id@), ("track_authorization"@, track_authorization@)]);
        proof {
            lemma_base_lengths();
            lemma_total_chars_push(Seq::empty(), self.client_id@);
            lemma_total_chars_push(seq![self.client_id@], url@);
            lemma_total_chars_push(seq![self.client_id@, url@], track_authorization@);
            assert(seq![self.client_id@] =~= Seq::<Seq<char>>::empty().push(self.client_id@));
            assert(seq![self.client_id@, url@] =~= seq![self.client_id@].push(url@));
            assert(seq![self.client_id@, url@, track_authorization@] =~= seq![self.client_id@, url@].push(track_authorization@));
            let p1 = seq![("client_id"@, self.client_id@)];
            assert(p1 =~= Seq::<(Seq<char>, Seq<char>)>::empty().push(("client_id"@, self.client_id@)));
            lemma_pairs_chars_push(Seq::empty(), ("client_id"@, self.client_id@));
            lemma_pairs_chars_push(p1, ("track_authorization"@, track_authorization@));
            assert(pairs_view(params@) =~= p1.push(("track_authorization"@, track_authorization@)));
        }
        with_params(url, &params)
    }

    fn fetch_step(u: Result<String, SoundcloudApiError>, is_track: bool) -> (step: ResolveStep)
        ensures
            forall|o: Option<Seq<char>>| url_outcome(o, u) ==> step@ == fetch_or_fail(o, is_track),
    {
        match u {
            Ok(s) => if is_track {
                ResolveStep::FetchTrack(s)
            } else {
                ResolveStep::FetchChunkListUrl(s)
            },
            Err(_) => ResolveStep::Failed(SoundcloudApiError::UrlParse),
        }
    }

    /// Whether the first step of a lookup can build its request URL.
    pub fn start_fits(&self, id: &str, track_url: &Option<String>, track_token: &Option<String>) -> (b: bool)
        ensures
            b == resolve_start_fits(
                self.client_id@,
                id@,
                crate::domain_models::opt_str(*track_url),
                crate::domain_models::opt_str(*track_token),
            ),
    {
        let mut parts: Vec<&str> = Vec::new();
        parts.push(self.client_id.as_str());
        match (borrowed(track_url), borrowed(track_token)) {
            (Some(u), Some(t)) => {
                parts.push(u.as_str());
                parts.push(t.as_str());
                assert(parts@.map_values(|s: &str| s@) =~= seq![self.client_id@, u@, t@]);
            },
            _ => {
                parts.push(id);
                assert(parts@.map_values(|s: &str| s@) =~= seq![self.client_id@, id@]);
            },
        }
        texts_fit_in_url(&parts)
    }

    /// Whether the step after the response `ev` can build its request URL.
    pub fn event_fits(&self, ev: &ResolveEvent) -> (b: bool)
        ensures
            b == resolve_next_fits(self.client_id@, ev@),
    {
        match ev {
            ResolveEvent::TrackReceived(Track::Full(data)) => match data.media.get_best_media() {
                Some(media) => {
                    let mut parts: Vec<&str> = Vec::new();
                    parts.push(self.client_id.as_str());
                    parts.push(media.url.as_str());
                    parts.push(data.track_authorization.as_str());
                    assert(parts@.map_values(|s: &str| s@) =~= seq![self.client_id@, media.url@, data.track_authorization@]);
                    texts_fit_in_url(&parts)
                },
                None => true,
            },
            _ => true,
        }
    }

    /// The first step of the lookup of the chunks of track `id`; a stream
    /// URL and token, where the caller has both, spare the track lookup.
    pub fn resolve_start(&self, id: &str, track_url: &Option<String>, track_token: &Option<String>) -> (step: ResolveStep)
        requires
            resolve_start_fits(
                self.client_id@,
                id@,
                crate::domain_models::opt_str(*track_url),
                crate::domain_models::opt_str(*track_token),
            ),
        ensures
            step@ == resolve_start_spec(
                self.client_id@,
                id@,
                crate::domain_models::opt_str(*track_url),
                crate::domain_models::opt_str(*track_token),
            ),
    {
        match (borrowed(track_url), borrowed(track_token)) {
            (Some(u), Some(t)) => Self::fetch_step(self.chunk_list_url(u.as_str(), t.as_str()), false),
            _ => Self::fetch_step(self.track_url(id), true),
        }
    }

    /// The next step of the lookup of a track's chunks after a response.
    pub fn resolve_next(&self, ev: ResolveEvent) -> (step: ResolveStep)
        requires
            resolve_next_fits(self.client_id@, ev@),
        ensures
            step@ == resolve_next_spec(self.client_id@, ev@),
    {
        match ev {
            ResolveEvent::TrackReceived(track) => match track {
                Track::Stub(_) => ResolveStep::Failed(SoundcloudApiError::TrackDataIsNotFull),
                Track::Full(data) => match data.media.get_best_media() {
                    None => ResolveStep::Failed(SoundcloudApiError::NoMediaDataInResponse),
                    Some(media) => Self::fetch_step(
                        self.chunk_list_url(media.url.as_str(), data.track_authorization.as_str()),
                        false,
                    ),
                },
            },
            ResolveEvent::ChunkListUrlReceived(u) => ResolveStep::FetchPlaylist(u),
            ResolveEvent::PlaylistReceived(text) => ResolveStep::Done(extract_chunk_urls(text.as_str())),
        }
    }
}

/// Building a request URL gives the URL that the parser makes, or the
/// `UrlParse` error exactly when the parser refuses it.
pub proof fn lemma_url_outcome(u: Option<Seq<char>>, res: Result<String, SoundcloudApiError>)
    requires
        url_outcome(u, res),
    ensures
        u is None <==> res is Err,
        res is Err ==> res->Err_0 == SoundcloudApiError::UrlParse,
        res is Ok ==> u == Some(res->Ok_0@),
{
}

/// The requests of the client: a search sends the query, the client id, the
/// limit and the offset, in this order, to `/search`; a playlist is fetched
/// from `/playlists/<id>` without the client id; one track from
/// `/track/<id>` and several from `/tracks` with their ids, both with the
/// client id; the chunk list of a transcoding from the transcoding's URL
/// with the client id and the track's authorization.
pub proof fn lemma_request_urls(client_id: Seq<char>, a: Seq<char>, b: Seq<char>, c: Seq<char>)
    ensures
        search_url_spec(client_id, a, b, c) == url_parse_with_params(
            "https://api-v2.soundcloud.com"@ + "/search"@,
            seq![("q"@, a), ("client_id"@, client_id), ("limit"@, c), ("offset"@, b)],
        ),
        playlist_url_spec(a) == url_parse("https://api-v2.soundcloud.com"@ + "/playlists/"@ + a),
        track_url_spec(client_id, a) == url_parse_with_params(
            "https://api-v2.soundcloud.com"@ + "/track/"@ + a,
            seq![("client_id"@, client_id)],
        ),
        tracks_url_spec(client_id, a) == url_parse_with_params(
            "https://api-v2.soundcloud.com"@ + "/tracks"@,
            seq![("ids"@, a), ("client_id"@, client_id)],
        ),
        chunk_list_url_spec(client_id, a, b) == url_parse_with_params(
            a,
            seq![("client_id"@, client_id), ("track_authorization"@, b)],
        ),
{
}

/// The lookup of a track's chunks: with a stream URL and a token it asks for
/// the chunk list of that URL with that token; otherwise it fetches the
/// track by its id. A stub is refused as not full, a track without
/// transcodings as having no media; a full track leads to the chunk list of
/// its first transcoding with its own authorization; the location of the
/// chunk list is fetched as it came; the chunk URLs are those of the
/// playlist text.
pub proof fn lemma_lookup_steps(
    client_id: Seq<char>,
    id: Seq<char>,
    url: Seq<char>,
    token: Seq<char>,
    d: TrackDataView,
    stub: crate::models::track::StubTrackData,
    text: Seq<char>,
)
    ensures
        resolve_start_spec(client_id, id, Some(url), Some(token)) == match chunk_list_url_spec(client_id, url, token) {
            Some(u) => ResolveStepView::FetchChunkListUrl(u),
            None => ResolveStepView::Failed(SoundcloudApiError::UrlParse),
        },
        resolve_start_spec(client_id, id, None, Some(token)) == resolve_start_spec(client_id, id, None, None),
        resolve_start_spec(client_id, id, Some(url), None) == resolve_start_spec(client_id, id, None, None),
        resolve_start_spec(client_id, id, None, None) == match track_url_spec(client_id, id) {
            Some(u) => ResolveStepView::FetchTrack(u),
            None => ResolveStepView::Failed(SoundcloudApiError::UrlParse),
        },
        resolve_next_spec(client_id, ResolveEventView::TrackReceived(TrackView::Stub(stub)))
            == ResolveStepView::Failed(SoundcloudApiError::TrackDataIsNotFull),
        d.media.transcodings.len() == 0 ==> resolve_next_spec(client_id, ResolveEventView::TrackReceived(TrackView::Full(d)))
            == ResolveStepView::Failed(SoundcloudApiError::NoMediaDataInResponse),
        d.media.transcodings.len() > 0 ==> resolve_next_spec(client_id, ResolveEventView::TrackReceived(TrackView::Full(d)))
            == match chunk_list_url_spec(client_id, d.media.transcodings[0].url, d.track_authorization) {
                Some(u) => ResolveStepView::FetchChunkListUrl(u),
                None => ResolveStepView::Failed(SoundcloudApiError::UrlParse),
            },
        resolve_next_spec(client_id, ResolveEventView::ChunkListUrlReceived(url)) == ResolveStepView::FetchPlaylist(url),
        resolve_next_spec(client_id, ResolveEventView::PlaylistReceived(text)) == ResolveStepView::Done(chunk_urls(text)),
{
}

} // verus!
