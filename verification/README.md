# soundcloud_client

A SoundCloud API v2 client, verified with Verus.

`src/` is the verified library:

- `models/`: the API's users, tracks, playlists and search results, and
  their conversion into the music API types and storage records of
  `domain_models`.
- `soundcloud_client`: the request URLs, and the lookup of a track's chunk
  URLs as a sequence of steps (track data, chunk list location, playlist).
- `chunk_urls`: extraction of the chunk URLs from an HLS playlist.
- `chunk_download`: the order in which chunks are downloaded and when the
  download stops.
- `s3_upload`: the decisions of mirroring a streamed track into S3 (single
  object or multipart upload), with its invariant and laws.
- `byte_stream`: the errors of a streamed body and how broadcast items
  become body frames.
- `text`: decimal rendering of integers.

`app/` sends the HTTP and S3 requests, decodes JSON with serde and runs the
streaming tasks with tokio.
