use soundcloud_client::byte_stream::{BodyStreamError, BroadcastItem, body_frame};
use soundcloud_client::chunk_download::ChunkDownload;
use soundcloud_client::chunk_urls::extract_chunk_urls;

#[test]
fn chunk_urls_of_an_hls_playlist() {
    let text = "#EXTM3U\n#EXT-X-VERSION:6\n#EXTINF:1.985,\nhttps://cf-hls-media.sndcdn.com/media/0/31762/abc.128.mp3?Policy=x&Signature=y\n#EXTINF:9.979,\nhttps://cf-hls-media.sndcdn.com/media/31762/1/abc.128.mp3\n#EXT-X-ENDLIST\n";
    assert_eq!(
        extract_chunk_urls(text),
        vec![
            "https://cf-hls-media.sndcdn.com/media/0/31762/abc.128.mp3?Policy=x&Signature=y".to_string(),
            "https://cf-hls-media.sndcdn.com/media/31762/1/abc.128.mp3".to_string(),
        ]
    );
}

#[test]
fn chunk_urls_stop_at_quotes_and_whitespace() {
    let text = "URI=\"https://a/b\" x https://c/d\u{a0}e https:x http://no \"https://f\"https://g";
    assert_eq!(
        extract_chunk_urls(text),
        vec!["https://a/b", "https://c/d", "https:x", "https://f", "https://g"]
            .into_iter()
            .map(String::from)
            .collect::<Vec<_>>()
    );
}

#[test]
fn chunk_urls_need_a_character_after_the_scheme() {
    assert!(extract_chunk_urls("https: https:\"").is_empty());
    assert!(extract_chunk_urls("").is_empty());
    assert_eq!(extract_chunk_urls("https::"), vec!["https::".to_string()]);
    assert_eq!(extract_chunk_urls("xhttps://y"), vec!["https://y".to_string()]);
}

#[test]
fn chunk_urls_do_not_overlap() {
    assert_eq!(extract_chunk_urls("https://ahttps://b"), vec!["https://ahttps://b".to_string()]);
}

#[test]
fn body_frames_of_broadcast_items() {
    assert_eq!(body_frame(None), None);
    assert_eq!(
        body_frame(Some(BroadcastItem::Received(Ok(vec![1, 2])))),
        Some(Ok(vec![1, 2]))
    );
    assert_eq!(
        body_frame(Some(BroadcastItem::Received(Err(BodyStreamError::ChunkError)))),
        Some(Err(BodyStreamError::ChunkError))
    );
    assert_eq!(
        body_frame(Some(BroadcastItem::Lagged(7))),
        Some(Err(BodyStreamError::Lagged(7)))
    );
}

#[test]
fn error_messages() {
    assert_eq!(
        BodyStreamError::SourceError.message(),
        "An error occurred while producing the stream data"
    );
    assert_eq!(
        BodyStreamError::Lagged(12).message(),
        "The broadcast stream receiver lagged and lost 12 messages. The stream is now corrupt."
    );
    assert_eq!(BodyStreamError::ChunkError.message(), "Fail to get next chunk from soundcloud");
}

fn urls() -> Vec<String> {
    vec!["https://1".to_string(), "https://2".to_string(), "https://3".to_string()]
}

#[test]
fn download_hands_out_chunks_in_order() {
    let mut d = ChunkDownload::for_response(urls());
    let mut seen = Vec::new();
    while let Some(u) = d.next_chunk() {
        seen.push(u);
    }
    assert_eq!(seen, urls());
    assert_eq!(d.next_chunk(), None);
}

#[test]
fn download_stops_after_failed_chunk() {
    let mut d = ChunkDownload::for_response(urls());
    assert_eq!(d.next_chunk().as_deref(), Some("https://1"));
    assert_eq!(d.chunk_failed(), BodyStreamError::SourceError);
    assert_eq!(d.next_chunk(), None);

    let mut m = ChunkDownload::for_mirror(urls());
    assert_eq!(m.next_chunk().as_deref(), Some("https://1"));
    assert_eq!(m.chunk_failed(), BodyStreamError::ChunkError);
    assert_eq!(m.next_chunk(), None);
}

#[test]
fn download_stops_when_nobody_listens() {
    let mut d = ChunkDownload::for_mirror(urls());
    assert!(d.next_chunk().is_some());
    d.receivers_gone();
    assert_eq!(d.next_chunk(), None);
}
