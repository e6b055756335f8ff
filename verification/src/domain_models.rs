//! The service-neutral types of the music API and of the storage layer that
//! SoundCloud data is converted into, and the error type of the client.
use vstd::prelude::*;

verus! {

/// The view of an optional string.
pub open spec fn opt_str(o: Option<String>) -> Option<Seq<char>> {
    match o {
        Some(s) => Some(s@),
        None => None,
    }
}

/// The music service a record comes from.
#[derive(Clone, Copy, Debug, PartialEq, Eq, Structural)]
pub enum ApiServices {
    Soundcloud,
}

/// An artist as the music API presents it.
pub struct ApiArtist {
    pub id: String,
    pub username: String,
    pub picture: Option<String>,
    pub is_dummy: bool,
}

pub struct ApiArtistView {
    pub id: Seq<char>,
    pub username: Seq<char>,
    pub picture: Option<Seq<char>>,
    pub is_dummy: bool,
}

impl View for ApiArtist {
    type V = ApiArtistView;

    open spec fn view(&self) -> ApiArtistView {
        ApiArtistView {
            id: self.id@,
            username: self.username@,
            picture: opt_str(self.picture),
            is_dummy: self.is_dummy,
        }
    }
}

/// A track as the music API presents it.
pub struct ApiTrack {
    pub id: String,
    pub service: ApiServices,
    pub title: String,
    pub picture: Option<String>,
    pub artists: Vec<ApiArtist>,
    pub alb_id: Option<String>,
    pub alb_title: Option<String>,
    pub duration: i64,
    pub track_url: Option<String>,
    pub track_token: Option<String>,
    pub platform: ApiServices,
}

pub struct ApiTrackView {
    pub id: Seq<char>,
    pub service: ApiServices,
    pub title: Seq<char>,
    pub picture: Option<Seq<char>>,
    pub artists: Seq<ApiArtistView>,
    pub alb_id: Option<Seq<char>>,
    pub alb_title: Option<Seq<char>>,
    pub duration: i64,
    pub track_url: Option<Seq<char>>,
    pub track_token: Option<Seq<char>>,
    pub platform: ApiServices,
}

impl View for ApiTrack {
    type V = ApiTrackView;

    open spec fn view(&self) -> ApiTrackView {
        ApiTrackView {
            id: self.id@,
            service: self.service,
            title: self.title@,
            picture: opt_str(self.picture),
            artists: self.artists@.map_values(|a: ApiArtist| a@),
            alb_id: opt_str(self.alb_id),
            alb_title: opt_str(self.alb_title),
            duration: self.duration,
            track_url: opt_str(self.track_url),
            track_token: opt_str(self.track_token),
            platform: self.platform,
        }
    }
}

/// A playlist as the music API presents it.
pub struct ApiPlaylist {
    pub id: String,
    pub title: String,
    pub parent_user_id: String,
    pub parent_username: String,
    pub parent_picture: Option<String>,
    pub picture: Option<String>,
    pub size: u32,
    pub tracks: Vec<ApiTrack>,
}

pub struct ApiPlaylistView {
    pub id: Seq<char>,
    pub title: Seq<char>,
    pub parent_user_id: Seq<char>,
    pub parent_username: Seq<char>,
    pub parent_picture: Option<Seq<char>>,
    pub picture: Option<Seq<char>>,
    pub size: u32,
    pub tracks: Seq<ApiTrackView>,
}

impl View for ApiPlaylist {
    type V = ApiPlaylistView;

    open spec fn view(&self) -> ApiPlaylistView {
        ApiPlaylistView {
            id: self.id@,
            title: self.title@,
            parent_user_id: self.parent_user_id@,
            parent_username: self.parent_username@,
            parent_picture: opt_str(self.parent_picture),
            picture: opt_str(self.picture),
            size: self.size,
            tracks: self.tracks@.map_values(|t: ApiTrack| t@),
        }
    }
}

/// One page of search results of the music API.
pub struct ApiSearchPage {
    pub artists: Vec<ApiArtist>,
    pub tracks: Vec<ApiTrack>,
    pub playlists: Vec<ApiPlaylist>,
    pub users: Vec<ApiArtist>,
    pub albums: Vec<ApiPlaylist>,
}

pub struct ApiSearchPageView {
    pub artists: Seq<ApiArtistView>,
    pub tracks: Seq<ApiTrackView>,
    pub playlists: Seq<ApiPlaylistView>,
    pub users: Seq<ApiArtistView>,
    pub albums: Seq<ApiPlaylistView>,
}

impl View for ApiSearchPage {
    type V = ApiSearchPageView;

    open spec fn view(&self) -> ApiSearchPageView {
        ApiSearchPageView {
            artists: self.artists@.map_values(|a: ApiArtist| a@),
            tracks: self.tracks@.map_values(|t: ApiTrack| t@),
            playlists: self.playlists@.map_values(|p: ApiPlaylist| p@),
            users: self.users@.map_values(|a: ApiArtist| a@),
            albums: self.albums@.map_values(|p: ApiPlaylist| p@),
        }
    }
}

/// An author record for storage.
pub struct AuthorInputSoundcloud {
    pub id: i64,
    pub title: String,
    pub img: Option<String>,
}

pub struct AuthorInputView {
    pub id: i64,
    pub title: Seq<char>,
    pub img: Option<Seq<char>>,
}

impl View for AuthorInputSoundcloud {
    type V = AuthorInputView;

    open spec fn view(&self) -> AuthorInputView {
        AuthorInputView { id: self.id, title: self.title@, img: opt_str(self.img) }
    }
}

/// A track record for storage.
pub struct TrackInputSoundcloud {
    pub id: i64,
    pub title: String,
    pub duration: i64,
    pub img: Option<String>,
    pub author_id: i64,
}

pub struct TrackInputView {
    pub id: i64,
    pub title: Seq<char>,
    pub duration: i64,
    pub img: Option<Seq<char>>,
    pub author_id: i64,
}

impl View for TrackInputSoundcloud {
    type V = TrackInputView;

    open spec fn view(&self) -> TrackInputView {
        TrackInputView {
            id: self.id,
            title: self.title@,
            duration: self.duration,
            img: opt_str(self.img),
            author_id: self.author_id,
        }
    }
}

/// A playlist record for storage.
pub struct PlaylistInputSoundcloud {
    pub id: i64,
    pub title: String,
    pub img: Option<String>,
    pub author_id: i64,
}

pub struct PlaylistInputView {
    pub id: i64,
    pub title: Seq<char>,
    pub img: Option<Seq<char>>,
    pub author_id: i64,
}

impl View for PlaylistInputSoundcloud {
    type V = PlaylistInputView;

    open spec fn view(&self) -> PlaylistInputView {
        PlaylistInputView { id: self.id, title: self.title@, img: opt_str(self.img), author_id: self.author_id }
    }
}

/// Everything needed to create or replace a playlist in storage: the
/// playlist, its author, its tracks and the authors of those tracks.
pub struct CreateReplacePlaylistInput {
    pub playlist: PlaylistInputSoundcloud,
    pub playlist_author: AuthorInputSoundcloud,
    pub tracks: Vec<TrackInputSoundcloud>,
    pub track_authors: Vec<AuthorInputSoundcloud>,
}

pub struct CreateReplacePlaylistInputView {
    pub playlist: PlaylistInputView,
    pub playlist_author: AuthorInputView,
    pub tracks: Seq<TrackInputView>,
    pub track_authors: Seq<AuthorInputView>,
}

impl View for CreateReplacePlaylistInput {
    type V = CreateReplacePlaylistInputView;

    open spec fn view(&self) -> CreateReplacePlaylistInputView {
        CreateReplacePlaylistInputView {
            playlist: self.playlist@,
            playlist_author: self.playlist_author@,
            tracks: self.tracks@.map_values(|t: TrackInputSoundcloud| t@),
            track_authors: self.track_authors@.map_values(|a: AuthorInputSoundcloud| a@),
        }
    }
}

/// Why a request to the SoundCloud API failed.
#[derive(Clone, Copy, Debug, PartialEq, Eq, Structural)]
pub enum SoundcloudApiError {
    /// A request URL could not be parsed.
    UrlParse,
    /// The HTTP request could not be built or sent, or its body not read.
    Request,
    /// The response body was not the JSON that was expected.
    Deserialize,
    /// The API answered with a stub where the full track data was needed.
    TrackDataIsNotFull,
    /// The track has no transcodings to stream.
    NoMediaDataInResponse,
}

} // verus!
