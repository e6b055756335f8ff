//! A SoundCloud API client library: the data models of the SoundCloud
//! v2 API, their conversion into the service-neutral music API types,
//! the construction of request URLs, the extraction of HLS chunk URLs from
//! a playlist, and the decision logic of streaming and of mirroring a
//! stream into S3 (single object or multipart upload).
pub mod text;
pub mod domain_models;
pub mod models;
pub mod chunk_urls;
pub mod byte_stream;
pub mod soundcloud_client;
pub mod s3_upload;
pub mod chunk_download;
