//! Tracks as the SoundCloud API returns them: full track data, or a stub
//! that carries only the id (playlists list their later tracks as stubs).
use vstd::prelude::*;
use crate::domain_models::{
    ApiServices, ApiTrack, ApiTrackView, AuthorInputSoundcloud, AuthorInputView,
    SoundcloudApiError, TrackInputSoundcloud, TrackInputView, opt_str,
};
use crate::models::user::{User, UserView, user_to_artist, user_to_author};
use crate::text::{int_decimal, i64_to_decimal};

verus! {

/// A track of a playlist or of a track lookup: full data, or only its id.
#[derive(Debug, Clone)]
pub enum Track {
    Full(TrackData),
    Stub(StubTrackData),
}

#[derive(Clone, Debug)]
pub struct TrackData {
    pub id: i64,
    pub title: String,
    pub artwork_url: Option<String>,
    pub duration: i64,
    pub media: Media,
    pub track_authorization: String,
    pub user: User,
}

#[derive(Debug, Clone, Copy, PartialEq, Eq, Structural)]
pub struct StubTrackData {
    pub id: i64,
}

/// The transcodings under which a track can be streamed, best first.
#[derive(Clone, Debug)]
pub struct Media {
    pub transcodings: Vec<EncodingData>,
}

#[derive(Clone, Debug)]
pub struct EncodingData {
    pub url: String,
    pub preset: Option<String>,
    pub duration: u32,
    pub snipped: bool,
    pub format: FormatData,
    pub quality: String,
    pub is_legacy_transcoding: Option<bool>,
}

#[derive(Clone, Debug)]
pub struct FormatData {
    pub protocol: String,
    pub mime_type: String,
}

pub struct FormatDataView {
    pub protocol: Seq<char>,
    pub mime_type: Seq<char>,
}

impl View for FormatData {
    type V = FormatDataView;

    open spec fn view(&self) -> FormatDataView {
        FormatDataView { protocol: self.protocol@, mime_type: self.mime_type@ }
    }
}

pub struct EncodingDataView {
    pub url: Seq<char>,
    pub preset: Option<Seq<char>>,
    pub duration: u32,
    pub snipped: bool,
    pub format: FormatDataView,
    pub quality: Seq<char>,
    pub is_legacy_transcoding: Option<bool>,
}

impl View for EncodingData {
    type V = EncodingDataView;

    open spec fn view(&self) -> EncodingDataView {
        EncodingDataView {
            url: self.url@,
            preset: opt_str(self.preset),
            duration: self.duration,
            snipped: self.snipped,
            format: self.format@,
            quality: self.quality@,
            is_legacy_transcoding: self.is_legacy_transcoding,
        }
    }
}

pub struct MediaView {
    pub transcodings: Seq<EncodingDataView>,
}

impl View for Media {
    type V = MediaView;

    open spec fn view(&self) -> MediaView {
        MediaView { transcodings: self.transcodings@.map_values(|e: EncodingData| e@) }
    }
}

pub struct TrackDataView {
    pub id: i64,
    pub title: Seq<char>,
    pub artwork_url: Option<Seq<char>>,
    pub duration: i64,
    pub media: MediaView,
    pub track_authorization: Seq<char>,
    pub user: UserView,
}

impl View for TrackData {
    type V = TrackDataView;

    open spec fn view(&self) -> TrackDataView {
        TrackDataView {
            id: self.id,
            title: self.title@,
            artwork_url: opt_str(self.artwork_url),
            duration: self.duration,
            media: self.media@,
            track_authorization: self.track_authorization@,
            user: self.user@,
        }
    }
}

pub enum TrackView {
    Full(TrackDataView),
    Stub(StubTrackData),
}

impl View for Track {
    type V = TrackView;

    open spec fn view(&self) -> TrackView {
        match self {
            Track::Full(d) => TrackView::Full(d@),
            Track::Stub(s) => TrackView::Stub(*s),
        }
    }
}

/// The transcoding that is streamed: the first one, which SoundCloud lists
/// in the highest quality; none when the track has no transcodings.
pub open spec fn best_media(m: MediaView) -> Option<EncodingDataView> {
    if m.transcodings.len() > 0 {
        Some(m.transcodings[0])
    } else {
        None
    }
}

/// The storage records of a track and of its author.
pub open spec fn track_to_inputs(t: TrackDataView) -> (TrackInputView, AuthorInputView) {
    (
        TrackInputView {
            id: t.id,
            title: t.title,
            duration: t.duration,
            img: t.artwork_url,
            author_id: t.user.id,
        },
        user_to_author(t.user),
    )
}

/// A track as the music API presents it: its author as the only artist, no
/// album, the URL of its best transcoding and its authorization token.
pub open spec fn track_to_api(t: TrackDataView) -> ApiTrackView {
    ApiTrackView {
        id: int_decimal(t.id as int),
        service: ApiServices::Soundcloud,
        title: t.title,
        picture: t.artwork_url,
        artists: seq![user_to_artist(t.user)],
        alb_id: None,
        alb_title: None,
        duration: t.duration,
        track_url: match best_media(t.media) {
            Some(e) => Some(e.url),
            None => None,
        },
        track_token: Some(t.track_authorization),
        platform: ApiServices::Soundcloud,
    }
}

impl Media {
    /// The transcoding to stream: the first listed.
    pub fn get_best_media(&self) -> (res: Option<&EncodingData>)
        ensures
            res == (if self.transcodings@.len() > 0 {
                Some(&self.transcodings@[0])
            } else {
                None::<&EncodingData>
            }),
            match res {
                Some(e) => best_media(self@) == Some(e@),
                None => best_media(self@) is None,
            },
    {
        if self.transcodings.len() > 0 {
            Some(&self.transcodings[0])
        } else {
            None
        }
    }
}

impl Track {
    /// The full track data; a stub is refused with `TrackDataIsNotFull`.
    pub fn try_into_track_data(self) -> (res: Result<TrackData, SoundcloudApiError>)
        ensures
            match self@ {
                TrackView::Full(d) => res matches Ok(t) && t@ == d,
                TrackView::Stub(_) => res == Err::<TrackData, _>(SoundcloudApiError::TrackDataIsNotFull),
            },
    {
        match self {
            Track::Full(track_data) => Ok(track_data),
            Track::Stub(_) => Err(SoundcloudApiError::TrackDataIsNotFull),
        }
    }
}

impl TrackData {
    /// The storage records of the track and of its author.
    pub fn into_inputs(self) -> (res: (TrackInputSoundcloud, AuthorInputSoundcloud))
        ensures
            (res.0@, res.1@) == track_to_inputs(self@),
    {
        let author_id = self.user.id;
        (
            TrackInputSoundcloud {
                id: self.id,
                title: self.title,
                duration: self.duration,
                img: self.artwork_url,
                author_id,
            },
            self.user.into_author_input(),
        )
    }

    /// The track as the music API presents it.
    pub fn into_api_track(self) -> (res: ApiTrack)
        ensures
            res@ == track_to_api(self@),
    {
        let track_url = match self.media.get_best_media() {
            Some(media) => Some(media.url.clone()),
            None => None,
        };
        let artist = self.user.into_api_artist();
        let mut artists = Vec::new();
        artists.push(artist);
        let res = ApiTrack {
            id: i64_to_decimal(self.id),
            service: ApiServices::Soundcloud,
            title: self.title,
            picture: self.artwork_url,
            artists,
            alb_id: None,
            alb_title: None,
            duration: self.duration,
            track_url,
            track_token: Some(self.track_authorization),
            platform: ApiServices::Soundcloud,
        };
        assert(res@.artists =~= seq![user_to_artist(self@.user)]);
        res
    }
}

/// A music API track shows the track's own id, title, artwork and duration,
/// its author as the only artist, the URL of its first transcoding, its
/// authorization as token, no album, and SoundCloud as service and
/// platform.
pub proof fn lemma_api_track_fields(t: TrackDataView)
    ensures
        track_to_api(t).id == int_decimal(t.id as int),
        track_to_api(t).title == t.title,
        track_to_api(t).picture == t.artwork_url,
        track_to_api(t).duration == t.duration,
        track_to_api(t).artists.len() == 1,
        track_to_api(t).artists[0].id == int_decimal(t.user.id as int),
        track_to_api(t).artists[0].username == t.user.username,
        track_to_api(t).artists[0].picture == t.user.avatar_url,
        !track_to_api(t).artists[0].is_dummy,
        t.media.transcodings.len() > 0 ==> track_to_api(t).track_url == Some(t.media.transcodings[0].url),
        t.media.transcodings.len() == 0 ==> track_to_api(t).track_url is None,
        track_to_api(t).track_token == Some(t.track_authorization),
        track_to_api(t).alb_id is None,
        track_to_api(t).alb_title is None,
        track_to_api(t).service == ApiServices::Soundcloud,
        track_to_api(t).platform == ApiServices::Soundcloud,
{
}

/// The storage records of a track: the track's id, title, duration and
/// artwork with its author's id; and the author's id, name and avatar.
pub proof fn lemma_track_inputs_fields(t: TrackDataView)
    ensures
        track_to_inputs(t).0.id == t.id,
        track_to_inputs(t).0.title == t.title,
        track_to_inputs(t).0.duration == t.duration,
        track_to_inputs(t).0.img == t.artwork_url,
        track_to_inputs(t).0.author_id == t.user.id,
        track_to_inputs(t).1.id == t.user.id,
        track_to_inputs(t).1.title == t.user.username,
        track_to_inputs(t).1.img == t.user.avatar_url,
{
}

} // verus!
