//! Search results as the SoundCloud API returns them.
use vstd::prelude::*;
use crate::domain_models::{
    ApiArtist, ApiArtistView, ApiPlaylist, ApiPlaylistView, ApiSearchPage, ApiSearchPageView,
    ApiTrack,
};
use crate::models::playlist::{PlaylistData, PlaylistDataView, playlist_to_api};
use crate::models::track::{TrackData, TrackDataView, track_to_api};
use crate::models::user::{User, UserView, user_to_artist};

verus! {

/// One hit of a search: a playlist, a track or a user.
pub enum SearchItem {
    Playlist(PlaylistData),
    Track(TrackData),
    User(User),
}

pub struct SearchResponse {
    pub collection: Vec<SearchItem>,
}

pub enum SearchItemView {
    Playlist(PlaylistDataView),
    Track(TrackDataView),
    User(UserView),
}

impl View for SearchItem {
    type V = SearchItemView;

    open spec fn view(&self) -> SearchItemView {
        match self {
            SearchItem::Playlist(p) => SearchItemView::Playlist(p@),
            SearchItem::Track(t) => SearchItemView::Track(t@),
            SearchItem::User(u) => SearchItemView::User(u@),
        }
    }
}

impl View for SearchResponse {
    type V = Seq<SearchItemView>;

    open spec fn view(&self) -> Seq<SearchItemView> {
        self.collection@.map_values(|i: SearchItem| i@)
    }
}

/// The playlists among the hits, in order.
pub open spec fn hit_playlists(s: Seq<SearchItemView>) -> Seq<PlaylistDataView>
    decreases s.len(),
{
    if s.len() == 0 {
        Seq::empty()
    } else {
        hit_playlists(s.drop_last()) + match s.last() {
            SearchItemView::Playlist(p) => seq![p],
            _ => Seq::empty(),
        }
    }
}

/// The tracks among the hits, in order.
pub open spec fn hit_tracks(s: Seq<SearchItemView>) -> Seq<TrackDataView>
    decreases s.len(),
{
    if s.len() == 0 {
        Seq::empty()
    } else {
        hit_tracks(s.drop_last()) + match s.last() {
            SearchItemView::Track(t) => seq![t],
            _ => Seq::empty(),
        }
    }
}

/// The users among the hits, in order.
pub open spec fn hit_users(s: Seq<SearchItemView>) -> Seq<UserView>
    decreases s.len(),
{
    if s.len() == 0 {
        Seq::empty()
    } else {
        hit_users(s.drop_last()) + match s.last() {
            SearchItemView::User(u) => seq![u],
            _ => Seq::empty(),
        }
    }
}

/// A page of search results of the music API: the users of the hits as
/// artists, their tracks and their playlists, each in the order of the hits;
/// no users and no albums.
pub open spec fn search_to_page(s: Seq<SearchItemView>) -> ApiSearchPageView {
    ApiSearchPageView {
        artists: hit_users(s).map_values(|u: UserView| user_to_artist(u)),
        tracks: hit_tracks(s).map_values(|t: TrackDataView| track_to_api(t)),
        playlists: hit_playlists(s).map_values(|p: PlaylistDataView| playlist_to_api(p)),
        users: Seq::empty(),
        albums: Seq::empty(),
    }
}

proof fn lemma_hits_step(s: Seq<SearchItemView>, i: int)
    requires
        0 <= i < s.len(),
    ensures
        hit_playlists(s.take(i + 1)) == hit_playlists(s.take(i)) + match s[i] {
            SearchItemView::Playlist(p) => seq![p],
            _ => Seq::<PlaylistDataView>::empty(),
        },
        hit_tracks(s.take(i + 1)) == hit_tracks(s.take(i)) + match s[i] {
            SearchItemView::Track(t) => seq![t],
            _ => Seq::<TrackDataView>::empty(),
        },
        hit_users(s.take(i + 1)) == hit_users(s.take(i)) + match s[i] {
            SearchItemView::User(u) => seq![u],
            _ => Seq::<UserView>::empty(),
        },
{
    assert(s.take(i + 1).drop_last() =~= s.take(i));
}

impl SearchResponse {
    /// The page of search results of the music API.
    pub fn into_api_search_page(self) -> (res: ApiSearchPage)
        ensures
            res@ == search_to_page(self@),
    {
        let ghost items = self@;
        let ghost orig = self.collection@;
        let mut artists: Vec<ApiArtist> = Vec::new();
        let mut playlists: Vec<ApiPlaylist> = Vec::new();
        let mut tracks: Vec<ApiTrack> = Vec::new();
        proof {
            broadcast use vstd::std_specs::vec::axiom_spec_into_iter;
        }
        for el in it: self.collection.into_iter()
            invariant
                it.seq() == orig,
                orig.map_values(|i: SearchItem| i@) == items,
                artists@.map_values(|a: ApiArtist| a@) =~= hit_users(items.take(it.index() as int)).map_values(
                    |u: UserView| user_to_artist(u),
                ),
                tracks@.map_values(|t: ApiTrack| t@) =~= hit_tracks(items.take(it.index() as int)).map_values(
                    |t: TrackDataView| track_to_api(t),
                ),
                playlists@.map_values(|p: ApiPlaylist| p@) =~= hit_playlists(
                    items.take(it.index() as int),
                ).map_values(|p: PlaylistDataView| playlist_to_api(p)),
        {
            let ghost k = it.index() as int;
            proof {
                lemma_hits_step(items, k);
                assert(el@ == items[k]);
            }
            let ghost old_artists = artists@;
            let ghost old_tracks = tracks@;
            let ghost old_playlists = playlists@;
            match el {
                SearchItem::Playlist(pl) => {
                    let ghost v = pl@;
                    playlists.push(pl.into_api_playlist());
                    assert(playlists@.map_values(|p: ApiPlaylist| p@) =~= old_playlists.map_values(
                        |p: ApiPlaylist| p@,
                    ).push(playlist_to_api(v)));
                    assert(hit_playlists(items.take(k + 1)) =~= hit_playlists(items.take(k)).push(v));
                    assert(hit_tracks(items.take(k + 1)) =~= hit_tracks(items.take(k)));
                    assert(hit_users(items.take(k + 1)) =~= hit_users(items.take(k)));
                },
                SearchItem::Track(tr) => {
                    let ghost v = tr@;
                    tracks.push(tr.into_api_track());
                    assert(tracks@.map_values(|t: ApiTrack| t@) =~= old_tracks.map_values(
                        |t: ApiTrack| t@,
                    ).push(track_to_api(v)));
                    assert(hit_playlists(items.take(k + 1)) =~= hit_playlists(items.take(k)));
                    assert(hit_tracks(items.take(k + 1)) =~= hit_tracks(items.take(k)).push(v));
                    assert(hit_users(items.take(k + 1)) =~= hit_users(items.take(k)));
                },
                SearchItem::User(us) => {
                    let ghost v = us@;
                    artists.push(us.into_api_artist());
                    assert(artists@.map_values(|a: ApiArtist| a@) =~= old_artists.map_values(
                        |a: ApiArtist| a@,
                    ).push(user_to_artist(v)));
                    assert(hit_playlists(items.take(k + 1)) =~= hit_playlists(items.take(k)));
                    assert(hit_tracks(items.take(k + 1)) =~= hit_tracks(items.take(k)));
                    assert(hit_users(items.take(k + 1)) =~= hit_users(items.take(k)).push(v));
                },
            }
        }
        assert(items.take(orig.len() as int) =~= items);
        let res = ApiSearchPage {
            artists,
            tracks,
            playlists,
            users: Vec::new(),
            albums: Vec::new(),
        };
        assert(res@.users =~= Seq::<ApiArtistView>::empty());
        assert(res@.albums =~= Seq::<ApiPlaylistView>::empty());
        res
    }
}

proof fn lemma_hits_partition(s: Seq<SearchItemView>)
    ensures
        hit_users(s).len() + hit_tracks(s).len() + hit_playlists(s).len() == s.len(),
    decreases s.len(),
{
    if s.len() > 0 {
        lemma_hits_partition(s.drop_last());
    }
}

/// Every hit of a search lands in the page exactly once: as an artist, a
/// track or a playlist.
pub proof fn lemma_page_holds_every_hit(s: Seq<SearchItemView>)
    ensures
        search_to_page(s).artists.len() + search_to_page(s).tracks.len()
            + search_to_page(s).playlists.len() == s.len(),
{
    lemma_hits_partition(s);
}

/// A search without hits gives an empty page.
pub proof fn lemma_page_of_no_hits()
    ensures
        search_to_page(Seq::empty()).artists.len() == 0,
        search_to_page(Seq::empty()).tracks.len() == 0,
        search_to_page(Seq::empty()).playlists.len() == 0,
        search_to_page(Seq::empty()).users.len() == 0,
        search_to_page(Seq::empty()).albums.len() == 0,
{
}

/// One more playlist hit adds its music API playlist at the end of the
/// page's playlists and leaves the rest of the page as it was: the page
/// lists the playlists in the order of the hits.
pub proof fn lemma_page_with_playlist_hit(s: Seq<SearchItemView>, p: PlaylistDataView)
    ensures
        search_to_page(s.push(SearchItemView::Playlist(p))).playlists
            == search_to_page(s).playlists.push(playlist_to_api(p)),
        search_to_page(s.push(SearchItemView::Playlist(p))).tracks == search_to_page(s).tracks,
        search_to_page(s.push(SearchItemView::Playlist(p))).artists == search_to_page(s).artists,
        search_to_page(s.push(SearchItemView::Playlist(p))).users.len() == 0,
        search_to_page(s.push(SearchItemView::Playlist(p))).albums.len() == 0,
{
    let s2 = s.push(SearchItemView::Playlist(p));
    assert(s2.drop_last() =~= s);
    assert(search_to_page(s2).playlists =~= search_to_page(s).playlists.push(playlist_to_api(p)));
    assert(search_to_page(s2).tracks =~= search_to_page(s).tracks);
    assert(search_to_page(s2).artists =~= search_to_page(s).artists);
}

/// One more track hit adds its music API track at the end of the page's
/// tracks and leaves the rest of the page as it was.
pub proof fn lemma_page_with_track_hit(s: Seq<SearchItemView>, t: TrackDataView)
    ensures
        search_to_page(s.push(SearchItemView::Track(t))).tracks
            == search_to_page(s).tracks.push(track_to_api(t)),
        search_to_page(s.push(SearchItemView::Track(t))).playlists == search_to_page(s).playlists,
        search_to_page(s.push(SearchItemView::Track(t))).artists == search_to_page(s).artists,
{
    let s2 = s.push(SearchItemView::Track(t));
    assert(s2.drop_last() =~= s);
    assert(search_to_page(s2).tracks =~= search_to_page(s).tracks.push(track_to_api(t)));
    assert(search_to_page(s2).playlists =~= search_to_page(s).playlists);
    assert(search_to_page(s2).artists =~= search_to_page(s).artists);
}

/// One more user hit adds the user as an artist at the end of the page's
/// artists and leaves the rest of the page as it was.
pub proof fn lemma_page_with_user_hit(s: Seq<SearchItemView>, u: UserView)
    ensures
        search_to_page(s.push(SearchItemView::User(u))).artists
            == search_to_page(s).artists.push(user_to_artist(u)),
        search_to_page(s.push(SearchItemView::User(u))).playlists == search_to_page(s).playlists,
        search_to_page(s.push(SearchItemView::User(u))).tracks == search_to_page(s).tracks,
{
    let s2 = s.push(SearchItemView::User(u));
    assert(s2.drop_last() =~= s);
    assert(search_to_page(s2).artists =~= search_to_page(s).artists.push(user_to_artist(u)));
    assert(search_to_page(s2).playlists =~= search_to_page(s).playlists);
    assert(search_to_page(s2).tracks =~= search_to_page(s).tracks);
}

proof fn lemma_only_playlists(s: Seq<SearchItemView>)
    requires
        forall|i: int| 0 <= i < s.len() ==> #[trigger] s[i] is Playlist,
    ensures
        hit_playlists(s).len() == s.len(),
        forall|i: int| 0 <= i < s.len() ==> hit_playlists(s)[i] == #[trigger] s[i]->Playlist_0,
    decreases s.len(),
{
    if s.len() > 0 {
        let s0 = s.drop_last();
        assert forall|i: int| 0 <= i < s0.len() implies #[trigger] s0[i] is Playlist by {
            assert(s0[i] == s[i]);
        }
        lemma_only_playlists(s0);
        assert forall|i: int| 0 <= i < s.len() implies hit_playlists(s)[i] == #[trigger] s[i]->Playlist_0 by {
            if i < s.len() - 1 {
                assert(s0[i] == s[i]);
            }
        }
    }
}

/// When every hit is a playlist, the i-th playlist of the page is the i-th
/// hit as a music API playlist.
pub proof fn lemma_playlist_hits_in_order(s: Seq<SearchItemView>)
    requires
        forall|i: int| 0 <= i < s.len() ==> #[trigger] s[i] is Playlist,
    ensures
        search_to_page(s).playlists.len() == s.len(),
        forall|i: int| 0 <= i < s.len() ==>
            search_to_page(s).playlists[i] == playlist_to_api(#[trigger] s[i]->Playlist_0),
{
    lemma_only_playlists(s);
}

} // verus!
