use soundcloud_client::domain_models::SoundcloudApiError;
use soundcloud_client::models::track::{EncodingData, FormatData, Media, StubTrackData, Track, TrackData};
use soundcloud_client::models::user::User;
use soundcloud_client::soundcloud_client::{texts_fit_in_url, ResolveEvent, ResolveStep, SoundCloudApi, MAX_URL_TEXT};

fn api() -> SoundCloudApi {
    SoundCloudApi::new("CID".to_string(), "bucket".to_string(), 1024)
}

#[test]
fn new_keeps_settings() {
    let a = api();
    assert_eq!(a.client_id, "CID");
    assert_eq!(a.bucket_name, "bucket");
    assert_eq!(a.part_size, 1024);
}

#[test]
fn search_url_encodes_query_and_paging() {
    assert_eq!(
        api().search_url("daft punk&co", "20", "10").unwrap(),
        "https://api-v2.soundcloud.com/search?q=daft+punk%26co&client_id=CID&limit=10&offset=20"
    );
}

#[test]
fn playlist_url_has_no_client_id() {
    assert_eq!(api().playlist_url("123").unwrap(), "https://api-v2.soundcloud.com/playlists/123");
}

#[test]
fn track_and_tracks_urls() {
    assert_eq!(
        api().track_url("55").unwrap(),
        "https://api-v2.soundcloud.com/track/55?client_id=CID"
    );
    assert_eq!(
        api().tracks_url("1,2,3").unwrap(),
        "https://api-v2.soundcloud.com/tracks?ids=1%2C2%2C3&client_id=CID"
    );
}

#[test]
fn chunk_list_url_adds_client_and_authorization() {
    assert_eq!(
        api().chunk_list_url("https://api-v2.soundcloud.com/media/x/stream/hls", "tok").unwrap(),
        "https://api-v2.soundcloud.com/media/x/stream/hls?client_id=CID&track_authorization=tok"
    );
}

#[test]
fn unparsable_url_is_url_parse_error() {
    assert!(matches!(api().chunk_list_url("not a url", "tok"), Err(SoundcloudApiError::UrlParse)));
}

fn full_track(urls: &[&str]) -> Track {
    Track::Full(TrackData {
        id: 1,
        title: "t".to_string(),
        artwork_url: None,
        duration: 1,
        media: Media {
            transcodings: urls
                .iter()
                .map(|u| EncodingData {
                    url: u.to_string(),
                    preset: None,
                    duration: 1,
                    snipped: false,
                    format: FormatData { protocol: "hls".to_string(), mime_type: "audio/mpeg".to_string() },
                    quality: "sq".to_string(),
                    is_legacy_transcoding: None,
                })
                .collect(),
        },
        track_authorization: "auth".to_string(),
        user: User { id: 2, avatar_url: None, username: "u".to_string() },
    })
}

#[test]
fn resolve_starts_with_track_lookup_without_stream_url() {
    match api().resolve_start("77", &None, &Some("tok".to_string())) {
        ResolveStep::FetchTrack(u) => assert_eq!(u, "https://api-v2.soundcloud.com/track/77?client_id=CID"),
        _ => panic!("expected a track lookup"),
    }
}

#[test]
fn resolve_starts_with_chunk_list_when_url_and_token_given() {
    match api().resolve_start("77", &Some("https://s/x".to_string()), &Some("tok".to_string())) {
        ResolveStep::FetchChunkListUrl(u) => {
            assert_eq!(u, "https://s/x?client_id=CID&track_authorization=tok")
        }
        _ => panic!("expected a chunk list lookup"),
    }
}

#[test]
fn resolve_fails_on_stub_and_on_missing_media() {
    assert!(matches!(
        api().resolve_next(ResolveEvent::TrackReceived(Track::Stub(StubTrackData { id: 1 }))),
        ResolveStep::Failed(SoundcloudApiError::TrackDataIsNotFull)
    ));
    assert!(matches!(
        api().resolve_next(ResolveEvent::TrackReceived(full_track(&[]))),
        ResolveStep::Failed(SoundcloudApiError::NoMediaDataInResponse)
    ));
}

#[test]
fn resolve_walks_from_track_to_chunks() {
    let a = api();
    let step = a.resolve_next(ResolveEvent::TrackReceived(full_track(&["https://m/best", "https://m/other"])));
    let u = match step {
        ResolveStep::FetchChunkListUrl(u) => u,
        _ => panic!("expected a chunk list lookup"),
    };
    assert_eq!(u, "https://m/best?client_id=CID&track_authorization=auth");
    let step = a.resolve_next(ResolveEvent::ChunkListUrlReceived("https://pl/x.m3u8".to_string()));
    let pl = match step {
        ResolveStep::FetchPlaylist(u) => u,
        _ => panic!("expected a playlist fetch"),
    };
    assert_eq!(pl, "https://pl/x.m3u8");
    match a.resolve_next(ResolveEvent::PlaylistReceived("#EXTM3U\nhttps://c/1\nhttps://c/2\n".to_string())) {
        ResolveStep::Done(urls) => assert_eq!(urls, vec!["https://c/1".to_string(), "https://c/2".to_string()]),
        _ => panic!("expected the chunk urls"),
    }
}

#[test]
fn playlist_url_is_normalized_by_the_url_parser() {
    assert_eq!(
        api().playlist_url("a b/../c").unwrap(),
        "https://api-v2.soundcloud.com/playlists/c"
    );
    assert_eq!(
        api().playlist_url("x y").unwrap(),
        "https://api-v2.soundcloud.com/playlists/x%20y"
    );
}

#[test]
fn url_texts_have_a_length_budget() {
    assert!(texts_fit_in_url(&vec!["abc", "def"]));
    assert!(texts_fit_in_url(&vec![]));
    let exact = "x".repeat(MAX_URL_TEXT - 2);
    assert!(texts_fit_in_url(&vec![exact.as_str(), "é", "y"]));
    let long = "x".repeat(MAX_URL_TEXT);
    assert!(!texts_fit_in_url(&vec![long.as_str(), "y"]));
    let a = api();
    assert!(a.start_fits("1", &None, &None));
    assert!(!a.start_fits(long.as_str(), &None, &None));
    assert!(a.start_fits(long.as_str(), &Some("u".to_string()), &Some("t".to_string())));
    assert!(a.event_fits(&ResolveEvent::TrackReceived(full_track(&["https://m"]))));
    assert!(a.event_fits(&ResolveEvent::ChunkListUrlReceived(long.clone())));
}
