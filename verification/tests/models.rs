use soundcloud_client::domain_models::{ApiServices, SoundcloudApiError};
use soundcloud_client::models::playlist::{PlaylistData, TracksList};
use soundcloud_client::models::search::{SearchItem, SearchResponse};
use soundcloud_client::models::track::{
    EncodingData, FormatData, Media, StubTrackData, Track, TrackData,
};
use soundcloud_client::models::user::User;
use soundcloud_client::text::{i64_to_decimal, u64_to_decimal, concat_str};

fn user(id: i64, name: &str, avatar: Option<&str>) -> User {
    User { id, avatar_url: avatar.map(|s| s.to_string()), username: name.to_string() }
}

fn encoding(url: &str) -> EncodingData {
    EncodingData {
        url: url.to_string(),
        preset: Some("mp3_1_0".to_string()),
        duration: 30000,
        snipped: false,
        format: FormatData { protocol: "hls".to_string(), mime_type: "audio/mpeg".to_string() },
        quality: "sq".to_string(),
        is_legacy_transcoding: Some(false),
    }
}

fn track(id: i64, title: &str, urls: &[&str], author: User) -> TrackData {
    TrackData {
        id,
        title: title.to_string(),
        artwork_url: Some(format!("https://img/{}", id)),
        duration: 1000 + id,
        media: Media { transcodings: urls.iter().map(|u| encoding(u)).collect() },
        track_authorization: format!("auth-{}", id),
        user: author,
    }
}

#[test]
fn decimal_rendering_matches_display() {
    for x in [0i64, 7, 10, 42, -1, -10, 1234567890, i64::MAX, i64::MIN] {
        assert_eq!(i64_to_decimal(x), x.to_string());
    }
    for n in [0u64, 9, 100, u64::MAX] {
        assert_eq!(u64_to_decimal(n), n.to_string());
    }
    assert_eq!(concat_str("ab", "cd"), "abcd");
}

#[test]
fn user_into_api_artist() {
    let a = user(-42, "dj", Some("https://a/x.jpg")).into_api_artist();
    assert_eq!(a.id, "-42");
    assert_eq!(a.username, "dj");
    assert_eq!(a.picture.as_deref(), Some("https://a/x.jpg"));
    assert!(!a.is_dummy);
}

#[test]
fn user_into_author_input() {
    let a = user(5, "name", None).into_author_input();
    assert_eq!(a.id, 5);
    assert_eq!(a.title, "name");
    assert_eq!(a.img, None);
}

#[test]
fn best_media_is_first_transcoding() {
    let m = Media { transcodings: vec![encoding("https://first"), encoding("https://second")] };
    assert_eq!(m.get_best_media().unwrap().url, "https://first");
    let empty = Media { transcodings: vec![] };
    assert!(empty.get_best_media().is_none());
}

#[test]
fn stub_is_not_full_track_data() {
    let stub = Track::Stub(StubTrackData { id: 3 });
    assert!(matches!(stub.try_into_track_data(), Err(SoundcloudApiError::TrackDataIsNotFull)));
    let full = Track::Full(track(4, "t", &[], user(1, "u", None)));
    assert_eq!(full.try_into_track_data().unwrap().id, 4);
}

#[test]
fn track_into_inputs() {
    let (t, a) = track(9, "song", &["https://m"], user(77, "me", Some("pic"))).into_inputs();
    assert_eq!((t.id, t.title.as_str(), t.duration, t.author_id), (9, "song", 1009, 77));
    assert_eq!(t.img.as_deref(), Some("https://img/9"));
    assert_eq!((a.id, a.title.as_str(), a.img.as_deref()), (77, "me", Some("pic")));
}

#[test]
fn track_into_api_track() {
    let t = track(12, "song", &["https://best", "https://worse"], user(3, "me", None)).into_api_track();
    assert_eq!(t.id, "12");
    assert_eq!(t.service, ApiServices::Soundcloud);
    assert_eq!(t.platform, ApiServices::Soundcloud);
    assert_eq!(t.track_url.as_deref(), Some("https://best"));
    assert_eq!(t.track_token.as_deref(), Some("auth-12"));
    assert_eq!(t.artists.len(), 1);
    assert_eq!(t.artists[0].id, "3");
    assert!(t.alb_id.is_none() && t.alb_title.is_none());
    assert_eq!(t.duration, 1012);
    let no_media = track(13, "s", &[], user(3, "me", None)).into_api_track();
    assert!(no_media.track_url.is_none());
}

fn playlist() -> PlaylistData {
    PlaylistData {
        id: 1000,
        title: "mix".to_string(),
        artwork_url: None,
        duration: 99,
        user: user(8, "owner", Some("o.jpg")),
        tracks: TracksList(vec![
            Track::Full(track(1, "a", &["https://1"], user(20, "x", None))),
            Track::Stub(StubTrackData { id: 2 }),
            Track::Full(track(3, "c", &[], user(30, "y", None))),
            Track::Stub(StubTrackData { id: 4 }),
        ]),
    }
}

#[test]
fn tracks_list_skips_stubs_and_pairs_authors() {
    let (tracks, authors) = playlist().tracks.into_inputs();
    assert_eq!(tracks.iter().map(|t| t.id).collect::<Vec<_>>(), vec![1, 3]);
    assert_eq!(authors.iter().map(|a| a.id).collect::<Vec<_>>(), vec![20, 30]);
    for (t, a) in tracks.iter().zip(authors.iter()) {
        assert_eq!(t.author_id, a.id);
    }
}

#[test]
fn playlist_into_create_replace_input() {
    let input = playlist().into_create_replace_input();
    assert_eq!(input.playlist.id, 1000);
    assert_eq!(input.playlist.title, "mix");
    assert_eq!(input.playlist.author_id, 8);
    assert_eq!(input.playlist_author.id, 8);
    assert_eq!(input.playlist_author.title, "owner");
    assert_eq!(input.tracks.len(), 2);
    assert_eq!(input.track_authors.len(), 2);
}

#[test]
fn playlist_into_api_playlist_counts_stubs_in_size() {
    let p = playlist().into_api_playlist();
    assert_eq!(p.id, "1000");
    assert_eq!(p.parent_user_id, "8");
    assert_eq!(p.parent_username, "owner");
    assert_eq!(p.parent_picture.as_deref(), Some("o.jpg"));
    assert_eq!(p.size, 4);
    assert_eq!(p.tracks.iter().map(|t| t.id.as_str()).collect::<Vec<_>>(), vec!["1", "3"]);
    assert!(p.tracks.len() as u32 <= p.size);
}

#[test]
fn search_response_into_page_keeps_every_hit_in_order() {
    let response = SearchResponse {
        collection: vec![
            SearchItem::User(user(1, "u1", None)),
            SearchItem::Track(track(2, "t2", &[], user(1, "u1", None))),
            SearchItem::Playlist(playlist()),
            SearchItem::User(user(4, "u4", None)),
            SearchItem::Track(track(5, "t5", &[], user(4, "u4", None))),
        ],
    };
    let page = response.into_api_search_page();
    assert_eq!(page.artists.iter().map(|a| a.id.as_str()).collect::<Vec<_>>(), vec!["1", "4"]);
    assert_eq!(page.tracks.iter().map(|t| t.id.as_str()).collect::<Vec<_>>(), vec!["2", "5"]);
    assert_eq!(page.playlists.len(), 1);
    assert_eq!(page.artists.len() + page.tracks.len() + page.playlists.len(), 5);
    assert!(page.users.is_empty());
    assert!(page.albums.is_empty());
}
