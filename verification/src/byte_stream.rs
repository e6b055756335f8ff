//! The bytes of a streamed track and the errors that can interrupt them,
//! and how an item received from the broadcast of a download becomes a
//! frame of the response body.
use vstd::prelude::*;
use crate::text::{nat_decimal, concat_str, u64_to_decimal};

verus! {

/// Why the stream of a track's bytes was interrupted.
#[derive(Clone, Copy, Debug, PartialEq, Eq, Structural)]
pub enum BodyStreamError {
    /// The source of the bytes failed.
    SourceError,
    /// The receiver fell behind the broadcast and lost this many messages.
    Lagged(u64),
    /// The next chunk could not be fetched from SoundCloud.
    ChunkError,
}

/// The human-readable text of an error.
pub open spec fn error_message(e: BodyStreamError) -> Seq<char> {
    match e {
        BodyStreamError::SourceError => "An error occurred while producing the stream data"@,
        BodyStreamError::Lagged(n) => "The broadcast stream receiver lagged and lost "@ + nat_decimal(
            n as nat,
        ) + " messages. The stream is now corrupt."@,
        BodyStreamError::ChunkError => "Fail to get next chunk from soundcloud"@,
    }
}

impl BodyStreamError {
    /// The human-readable text of the error.
    pub fn message(&self) -> (s: String)
        ensures
            s@ == error_message(*self),
    {
        match self {
            BodyStreamError::SourceError => String::from_str(
                "An error occurred while producing the stream data",
            ),
            BodyStreamError::Lagged(n) => {
                let head = concat_str(
                    "The broadcast stream receiver lagged and lost ",
                    u64_to_decimal(*n).as_str(),
                );
                concat_str(head.as_str(), " messages. The stream is now corrupt.")
            },
            BodyStreamError::ChunkError => String::from_str("Fail to get next chunk from soundcloud"),
        }
    }
}

/// What a receiver of the download broadcast gets: an item that the
/// downloader sent, or the notice that it fell behind and lost messages.
pub enum BroadcastItem {
    Received(Result<Vec<u8>, BodyStreamError>),
    Lagged(u64),
}

/// The frame of the response body for the next item of the broadcast: the
/// bytes or the error that was sent, a `Lagged` error for a receiver that
/// fell behind, and the end of the body when the broadcast has ended.
pub fn body_frame(item: Option<BroadcastItem>) -> (frame: Option<Result<Vec<u8>, BodyStreamError>>)
    ensures
        frame == match item {
            None => None,
            Some(BroadcastItem::Received(r)) => Some(r),
            Some(BroadcastItem::Lagged(n)) => Some(Err(BodyStreamError::Lagged(n))),
        },
{
    match item {
        None => None,
        Some(BroadcastItem::Received(r)) => Some(r),
        Some(BroadcastItem::Lagged(n)) => Some(Err(BodyStreamError::Lagged(n))),
    }
}

/// The texts of the errors; the lag names the number of lost messages in
/// decimal.
pub proof fn lemma_error_messages(n: u64)
    ensures
        error_message(BodyStreamError::SourceError) == "An error occurred while producing the stream data"@,
        error_message(BodyStreamError::ChunkError) == "Fail to get next chunk from soundcloud"@,
        error_message(BodyStreamError::Lagged(n)) == "The broadcast stream receiver lagged and lost "@
            + nat_decimal(n as nat) + " messages. The stream is now corrupt."@,
{
}

} // verus!
