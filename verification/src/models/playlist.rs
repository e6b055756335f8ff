//! Playlists as the SoundCloud API returns them.
use vstd::prelude::*;
use crate::domain_models::{
    ApiPlaylist, ApiPlaylistView, ApiTrack, AuthorInputSoundcloud, AuthorInputView,
    CreateReplacePlaylistInput, CreateReplacePlaylistInputView, PlaylistInputSoundcloud,
    PlaylistInputView, TrackInputSoundcloud, TrackInputView, opt_str,
};
use crate::models::track::{Track, TrackDataView, TrackView, track_to_api, track_to_inputs};
use crate::models::user::{User, UserView, user_to_author};
use crate::text::{int_decimal, i64_to_decimal};

verus! {

#[derive(Clone, Debug)]
pub struct PlaylistData {
    pub id: i64,
    pub title: String,
    pub artwork_url: Option<String>,
    pub duration: i32,
    pub user: User,
    pub tracks: TracksList,
}

/// The tracks of a playlist, in playlist order; full data or stubs.
#[derive(Clone, Debug)]
pub struct TracksList(pub Vec<Track>);

impl View for TracksList {
    type V = Seq<TrackView>;

    open spec fn view(&self) -> Seq<TrackView> {
        self.0@.map_values(|t: Track| t@)
    }
}

pub struct PlaylistDataView {
    pub id: i64,
    pub title: Seq<char>,
    pub artwork_url: Option<Seq<char>>,
    pub duration: i32,
    pub user: UserView,
    pub tracks: Seq<TrackView>,
}

impl View for PlaylistData {
    type V = PlaylistDataView;

    open spec fn view(&self) -> PlaylistDataView {
        PlaylistDataView {
            id: self.id,
            title: self.title@,
            artwork_url: opt_str(self.artwork_url),
            duration: self.duration,
            user: self.user@,
            tracks: self.tracks@,
        }
    }
}

/// The full tracks among `s`, in order; stubs are left out.
pub open spec fn full_tracks(s: Seq<TrackView>) -> Seq<TrackDataView>
    decreases s.len(),
{
    if s.len() == 0 {
        Seq::empty()
    } else {
        full_tracks(s.drop_last()) + match s.last() {
            TrackView::Full(d) => seq![d],
            TrackView::Stub(_) => Seq::empty(),
        }
    }
}

/// The storage records of the full tracks of a list, and of their authors,
/// in list order.
pub open spec fn tracks_to_inputs(s: Seq<TrackView>) -> (Seq<TrackInputView>, Seq<AuthorInputView>) {
    (
        full_tracks(s).map_values(|d: TrackDataView| track_to_inputs(d).0),
        full_tracks(s).map_values(|d: TrackDataView| track_to_inputs(d).1),
    )
}

/// The storage input that creates or replaces a playlist: the playlist, its
/// author, and the records of its full tracks and their authors.
pub open spec fn playlist_to_create_input(p: PlaylistDataView) -> CreateReplacePlaylistInputView {
    CreateReplacePlaylistInputView {
        playlist: PlaylistInputView {
            id: p.id,
            title: p.title,
            img: p.artwork_url,
            author_id: p.user.id,
        },
        playlist_author: user_to_author(p.user),
        tracks: tracks_to_inputs(p.tracks).0,
        track_authors: tracks_to_inputs(p.tracks).1,
    }
}

/// A playlist as the music API presents it. `size` counts every track of the
/// list, stubs included (truncated to 32 bits); `tracks` holds the full ones.
pub open spec fn playlist_to_api(p: PlaylistDataView) -> ApiPlaylistView {
    ApiPlaylistView {
        id: int_decimal(p.id as int),
        title: p.title,
        parent_user_id: int_decimal(p.user.id as int),
        parent_username: p.user.username,
        parent_picture: p.user.avatar_url,
        picture: p.artwork_url,
        size: p.tracks.len() as u32,
        tracks: full_tracks(p.tracks).map_values(|d: TrackDataView| track_to_api(d)),
    }
}

proof fn lemma_full_tracks_step(s: Seq<TrackView>, i: int)
    requires
        0 <= i < s.len(),
    ensures
        full_tracks(s.take(i + 1)) == full_tracks(s.take(i)) + match s[i] {
            TrackView::Full(d) => seq![d],
            TrackView::Stub(_) => Seq::<TrackDataView>::empty(),
        },
{
    assert(s.take(i + 1).drop_last() =~= s.take(i));
}

impl TracksList {
    /// The storage records of the full tracks and of their authors; stubs
    /// are skipped.
    pub fn into_inputs(self) -> (res: (Vec<TrackInputSoundcloud>, Vec<AuthorInputSoundcloud>))
        ensures
            res.0@.map_values(|t: TrackInputSoundcloud| t@) == tracks_to_inputs(self@).0,
            res.1@.map_values(|a: AuthorInputSoundcloud| a@) == tracks_to_inputs(self@).1,
    {
        let ghost items = self@;
        let mut tracks: Vec<TrackInputSoundcloud> = Vec::new();
        let mut authors: Vec<AuthorInputSoundcloud> = Vec::new();
        let ghost orig = self.0@;
        proof {
            broadcast use vstd::std_specs::vec::axiom_spec_into_iter;
        }
        for t in it: self.0.into_iter()
            invariant
                it.seq() == orig,
                orig.map_values(|t: Track| t@) == items,
                tracks@.map_values(|t: TrackInputSoundcloud| t@)
                    =~= full_tracks(items.take(it.index() as int)).map_values(|d: TrackDataView| track_to_inputs(d).0),
                authors@.map_values(|a: AuthorInputSoundcloud| a@)
                    =~= full_tracks(items.take(it.index() as int)).map_values(|d: TrackDataView| track_to_inputs(d).1),
        {
            let ghost k = it.index() as int;
            proof {
                lemma_full_tracks_step(items, k);
                assert(t@ == items[k]);
            }
            match t {
                Track::Full(track) => {
                    let ghost d = track@;
                    assert(full_tracks(items.take(k + 1)) =~= full_tracks(items.take(k)).push(d));
                    let (track_input, author_input) = track.into_inputs();
                    assert(track_input@ == track_to_inputs(d).0);
                    assert(author_input@ == track_to_inputs(d).1);
                    let ghost old_tracks = tracks@;
                    let ghost old_authors = authors@;
                    tracks.push(track_input);
                    authors.push(author_input);
                    assert(tracks@.map_values(|t: TrackInputSoundcloud| t@) =~= old_tracks.map_values(
                        |t: TrackInputSoundcloud| t@,
                    ).push(track_to_inputs(d).0));
                    assert(authors@.map_values(|a: AuthorInputSoundcloud| a@) =~= old_authors.map_values(
                        |a: AuthorInputSoundcloud| a@,
                    ).push(track_to_inputs(d).1));
                    assert(tracks@.map_values(|t: TrackInputSoundcloud| t@) =~= full_tracks(
                        items.take(k + 1),
                    ).map_values(|d: TrackDataView| track_to_inputs(d).0));
                    assert(authors@.map_values(|a: AuthorInputSoundcloud| a@) =~= full_tracks(
                        items.take(k + 1),
                    ).map_values(|d: TrackDataView| track_to_inputs(d).1));
                },
                Track::Stub(_) => {
                    assert(full_tracks(items.take(k + 1)) =~= full_tracks(items.take(k)));
                },
            }
        }
        let ghost n = orig.len();
        assert(items.take(n as int) =~= items);
        (tracks, authors)
    }
    /// The full tracks of the list as the music API presents them, in order.
    fn into_api_tracks(self) -> (res: Vec<ApiTrack>)
        ensures
            res@.map_values(|t: ApiTrack| t@) == full_tracks(self@).map_values(
                |d: TrackDataView| track_to_api(d),
            ),
    {
        let ghost items = self@;
        let mut tracks: Vec<ApiTrack> = Vec::new();
        let ghost orig = self.0@;
        proof {
            broadcast use vstd::std_specs::vec::axiom_spec_into_iter;
        }
        for t in it: self.0.into_iter()
            invariant
                it.seq() == orig,
                orig.map_values(|t: Track| t@) == items,
                tracks@.map_values(|t: ApiTrack| t@) =~= full_tracks(
                    items.take(it.index() as int),
                ).map_values(|d: TrackDataView| track_to_api(d)),
        {
            let ghost k = it.index() as int;
            proof {
                lemma_full_tracks_step(items, k);
                assert(t@ == items[k]);
            }
            match t {
                Track::Full(track) => {
                    let ghost d = track@;
                    assert(full_tracks(items.take(k + 1)) =~= full_tracks(items.take(k)).push(d));
                    let api_track = track.into_api_track();
                    let ghost old_tracks = tracks@;
                    tracks.push(api_track);
                    assert(tracks@.map_values(|t: ApiTrack| t@) =~= old_tracks.map_values(
                        |t: ApiTrack| t@,
                    ).push(track_to_api(d)));
                },
                Track::Stub(_) => {
                    assert(full_tracks(items.take(k + 1)) =~= full_tracks(items.take(k)));
                },
            }
        }
        assert(items.take(orig.len() as int) =~= items);
        tracks
    }
}

impl PlaylistData {
    /// The storage input that creates or replaces this playlist.
    pub fn into_create_replace_input(self) -> (res: CreateReplacePlaylistInput)
        ensures
            res@ == playlist_to_create_input(self@),
    {
        let ghost p = self@;
        let author_id = self.user.id;
        let (tracks, track_authors) = self.tracks.into_inputs();
        CreateReplacePlaylistInput {
            playlist: PlaylistInputSoundcloud {
                id: self.id,
                title: self.title,
                img: self.artwork_url,
                author_id,
            },
            playlist_author: self.user.into_author_input(),
            tracks,
            track_authors,
        }
    }

    /// The playlist as the music API presents it.
    pub fn into_api_playlist(self) -> (res: ApiPlaylist)
        ensures
            res@ == playlist_to_api(self@),
    {
        let size = self.tracks.0.len() as u32;
        let tracks = self.tracks.into_api_tracks();
        ApiPlaylist {
            id: i64_to_decimal(self.id),
            title: self.title,
            parent_user_id: i64_to_decimal(self.user.id),
            parent_username: self.user.username,
            parent_picture: self.user.avatar_url,
            picture: self.artwork_url,
            size,
            tracks,
        }
    }
}

/// The track records and the author records of a track list correspond one
/// to one: the i-th author is the author of the i-th track.
pub proof fn lemma_track_authors_correspond(s: Seq<TrackView>)
    ensures
        tracks_to_inputs(s).0.len() == tracks_to_inputs(s).1.len(),
        forall|i: int| 0 <= i < tracks_to_inputs(s).0.len() ==>
            (#[trigger] tracks_to_inputs(s).0[i]).author_id == tracks_to_inputs(s).1[i].id,
{
}

/// A list holds at least as many tracks as it has full ones.
pub proof fn lemma_full_tracks_len(s: Seq<TrackView>)
    ensures
        full_tracks(s).len() <= s.len(),
    decreases s.len(),
{
    if s.len() > 0 {
        lemma_full_tracks_len(s.drop_last());
    }
}

/// The tracks of a playlist in the music API are never more than its size,
/// when the number of tracks fits in 32 bits.
pub proof fn lemma_api_tracks_within_size(p: PlaylistDataView)
    requires
        p.tracks.len() <= u32::MAX,
    ensures
        playlist_to_api(p).tracks.len() <= playlist_to_api(p).size,
{
    lemma_full_tracks_len(p.tracks);
}

/// A full track appended to a list is appended to its full tracks; a stub
/// changes nothing: the full tracks keep the order of the list.
pub proof fn lemma_full_tracks_push(s: Seq<TrackView>, t: TrackView)
    ensures
        full_tracks(s.push(t)) == match t {
            TrackView::Full(d) => full_tracks(s).push(d),
            TrackView::Stub(_) => full_tracks(s),
        },
{
    assert(s.push(t).drop_last() =~= s);
    match t {
        TrackView::Full(d) => {
            assert(full_tracks(s.push(t)) =~= full_tracks(s).push(d));
        },
        TrackView::Stub(_) => {
            assert(full_tracks(s.push(t)) =~= full_tracks(s));
        },
    }
}

/// A music API playlist shows the playlist's own id, title and artwork, its
/// owner's id, name and avatar, a size that counts every listed track, and
/// its full tracks in list order.
pub proof fn lemma_api_playlist_fields(p: PlaylistDataView)
    ensures
        playlist_to_api(p).id == int_decimal(p.id as int),
        playlist_to_api(p).title == p.title,
        playlist_to_api(p).picture == p.artwork_url,
        playlist_to_api(p).parent_user_id == int_decimal(p.user.id as int),
        playlist_to_api(p).parent_username == p.user.username,
        playlist_to_api(p).parent_picture == p.user.avatar_url,
        playlist_to_api(p).size == p.tracks.len() as u32,
        playlist_to_api(p).tracks.len() == full_tracks(p.tracks).len(),
        forall|i: int| 0 <= i < full_tracks(p.tracks).len() ==>
            playlist_to_api(p).tracks[i] == track_to_api(#[trigger] full_tracks(p.tracks)[i]),
{
}

/// The storage record of a playlist holds its own id, title and artwork and
/// its owner's id; the owner's record holds the owner's id, name and
/// avatar; the i-th track record and the i-th author record belong to the
/// i-th full track of the list.
pub proof fn lemma_create_input_fields(p: PlaylistDataView)
    ensures
        playlist_to_create_input(p).playlist.id == p.id,
        playlist_to_create_input(p).playlist.title == p.title,
        playlist_to_create_input(p).playlist.img == p.artwork_url,
        playlist_to_create_input(p).playlist.author_id == p.user.id,
        playlist_to_create_input(p).playlist_author.id == p.user.id,
        playlist_to_create_input(p).playlist_author.title == p.user.username,
        playlist_to_create_input(p).playlist_author.img == p.user.avatar_url,
        playlist_to_create_input(p).tracks.len() == full_tracks(p.tracks).len(),
        playlist_to_create_input(p).track_authors.len() == full_tracks(p.tracks).len(),
        forall|i: int| 0 <= i < full_tracks(p.tracks).len() ==> {
            let d = #[trigger] full_tracks(p.tracks)[i];
            &&& playlist_to_create_input(p).tracks[i].id == d.id
            &&& playlist_to_create_input(p).tracks[i].title == d.title
            &&& playlist_to_create_input(p).tracks[i].duration == d.duration
            &&& playlist_to_create_input(p).tracks[i].img == d.artwork_url
            &&& playlist_to_create_input(p).tracks[i].author_id == d.user.id
            &&& playlist_to_create_input(p).track_authors[i].id == d.user.id
            &&& playlist_to_create_input(p).track_authors[i].title == d.user.username
            &&& playlist_to_create_input(p).track_authors[i].img == d.user.avatar_url
        },
{
}

} // verus!
