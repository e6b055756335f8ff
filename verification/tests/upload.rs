use soundcloud_client::byte_stream::BodyStreamError;
use soundcloud_client::s3_upload::{S3Upload, UploadAction, UploadEvent, UploadPhase, MIN_PART_SIZE};

fn is_receive(a: &UploadAction) -> bool {
    matches!(a, UploadAction::Receive)
}

#[test]
fn small_stream_is_put_as_one_object() {
    let mut u = S3Upload::new(100);
    assert!(is_receive(&u.on_event(UploadEvent::Chunk(vec![1, 2, 3]))));
    assert!(is_receive(&u.on_event(UploadEvent::Chunk(vec![4]))));
    match u.on_event(UploadEvent::Closed) {
        UploadAction::PutObject { data } => assert_eq!(data, vec![1, 2, 3, 4]),
        _ => panic!("expected a single put"),
    }
    assert_eq!(u.phase(), UploadPhase::Finished);
    assert!(matches!(u.on_event(UploadEvent::Closed), UploadAction::Stop));
}

#[test]
fn empty_stream_puts_an_empty_object() {
    let mut u = S3Upload::new(10);
    match u.on_event(UploadEvent::Closed) {
        UploadAction::PutObject { data } => assert!(data.is_empty()),
        _ => panic!("expected a single put"),
    }
}

#[test]
fn multipart_upload_sends_every_byte_in_numbered_parts() {
    let mut u = S3Upload::new(4);
    assert!(matches!(u.on_event(UploadEvent::Chunk(vec![7; 5])), UploadAction::CreateUpload));
    assert!(is_receive(&u.on_event(UploadEvent::UploadCreated(Some("up".to_string())))));
    let big = vec![9u8; MIN_PART_SIZE];
    match u.on_event(UploadEvent::Chunk(big)) {
        UploadAction::UploadPart { upload_id, part_number, data } => {
            assert_eq!(upload_id, "up");
            assert_eq!(part_number, 1);
            assert_eq!(data.len(), MIN_PART_SIZE + 5);
            assert_eq!(&data[..5], &[7, 7, 7, 7, 7]);
        }
        _ => panic!("expected a part"),
    }
    assert_eq!(u.buffered(), 0);
    assert!(is_receive(&u.on_event(UploadEvent::PartUploaded(Some("e1".to_string())))));
    assert_eq!(u.part_number(), 2);
    assert!(is_receive(&u.on_event(UploadEvent::Chunk(vec![1, 2]))));
    match u.on_event(UploadEvent::Closed) {
        UploadAction::UploadPart { upload_id, part_number, data } => {
            assert_eq!(upload_id, "up");
            assert_eq!(part_number, 2);
            assert_eq!(data, vec![1, 2]);
        }
        _ => panic!("expected the last part"),
    }
    match u.on_event(UploadEvent::PartUploaded(None)) {
        UploadAction::Complete { upload_id, parts } => {
            assert_eq!(upload_id, "up");
            assert_eq!(parts.iter().map(|p| p.part_number).collect::<Vec<_>>(), vec![1, 2]);
            assert_eq!(parts[0].e_tag.as_deref(), Some("e1"));
            assert_eq!(parts[1].e_tag, None);
        }
        _ => panic!("expected completion"),
    }
}

#[test]
fn multipart_upload_with_empty_rest_completes_directly() {
    let mut u = S3Upload::new(0);
    assert!(matches!(u.on_event(UploadEvent::Chunk(vec![1])), UploadAction::CreateUpload));
    assert!(is_receive(&u.on_event(UploadEvent::UploadCreated(Some("id".to_string())))));
    match u.on_event(UploadEvent::Chunk(vec![0; MIN_PART_SIZE])) {
        UploadAction::UploadPart { part_number, .. } => assert_eq!(part_number, 1),
        _ => panic!("expected a part"),
    }
    assert!(is_receive(&u.on_event(UploadEvent::PartUploaded(None))));
    match u.on_event(UploadEvent::Closed) {
        UploadAction::Complete { parts, .. } => assert_eq!(parts.len(), 1),
        _ => panic!("expected completion"),
    }
}

#[test]
fn upload_id_missing_keeps_buffering_and_retries_creation() {
    let mut u = S3Upload::new(2);
    assert!(matches!(u.on_event(UploadEvent::Chunk(vec![1, 2])), UploadAction::CreateUpload));
    assert!(is_receive(&u.on_event(UploadEvent::UploadCreated(None))));
    assert!(matches!(u.on_event(UploadEvent::Chunk(vec![3])), UploadAction::CreateUpload));
}

#[test]
fn stream_error_aborts_started_upload() {
    let mut u = S3Upload::new(1);
    assert!(matches!(u.on_event(UploadEvent::Chunk(vec![1])), UploadAction::CreateUpload));
    assert!(is_receive(&u.on_event(UploadEvent::UploadCreated(Some("id".to_string())))));
    match u.on_event(UploadEvent::StreamFailed(BodyStreamError::SourceError)) {
        UploadAction::Abort { upload_id } => assert_eq!(upload_id, "id"),
        _ => panic!("expected abort"),
    }
}

#[test]
fn stream_error_before_upload_just_stops() {
    let mut u = S3Upload::new(100);
    assert!(is_receive(&u.on_event(UploadEvent::Chunk(vec![1]))));
    assert!(matches!(u.on_event(UploadEvent::Lagged(3)), UploadAction::Stop));
    assert_eq!(u.phase(), UploadPhase::Finished);
}

#[test]
fn failed_creation_stops_and_failed_part_aborts() {
    let mut u = S3Upload::new(1);
    assert!(matches!(u.on_event(UploadEvent::Chunk(vec![1])), UploadAction::CreateUpload));
    assert!(matches!(u.on_event(UploadEvent::CreateFailed), UploadAction::Stop));

    let mut v = S3Upload::new(1);
    assert!(matches!(v.on_event(UploadEvent::Chunk(vec![1])), UploadAction::CreateUpload));
    assert!(is_receive(&v.on_event(UploadEvent::UploadCreated(Some("x".to_string())))));
    assert!(matches!(v.on_event(UploadEvent::Closed), UploadAction::UploadPart { .. }));
    match v.on_event(UploadEvent::PartFailed) {
        UploadAction::Abort { upload_id } => assert_eq!(upload_id, "x"),
        _ => panic!("expected abort"),
    }
}

#[test]
fn unexpected_event_ends_upload() {
    let mut u = S3Upload::new(10);
    assert!(matches!(u.on_event(UploadEvent::PartUploaded(None)), UploadAction::Stop));
    assert_eq!(u.phase(), UploadPhase::Finished);
}
