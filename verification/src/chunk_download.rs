//! The order in which the chunks of a track are downloaded: one after the
//! other as the playlist lists them, stopping at the first chunk that
//! cannot be fetched (and reporting the error chosen for that case), or as
//! soon as nobody is listening any more.
use vstd::prelude::*;
use crate::byte_stream::BodyStreamError;

verus! {

/// The downloads of the chunks of one track.
pub struct ChunkDownload {
    urls: Vec<String>,
    next: usize,
    stopped: bool,
    failure: BodyStreamError,
}

/// The model of a download: the chunk URLs, how many were handed out,
/// whether it stopped, and the error it reports for a failed chunk.
pub struct ChunkDownloadView {
    pub urls: Seq<Seq<char>>,
    pub next: int,
    pub stopped: bool,
    pub failure: BodyStreamError,
}

impl View for ChunkDownload {
    type V = ChunkDownloadView;

    closed spec fn view(&self) -> ChunkDownloadView {
        ChunkDownloadView {
            urls: self.urls@.map_values(|s: String| s@),
            next: self.next as int,
            stopped: self.stopped,
            failure: self.failure,
        }
    }
}

/// A download that has handed out no chunk yet.
pub open spec fn fresh_download(urls: Seq<Seq<char>>, failure: BodyStreamError) -> ChunkDownloadView {
    ChunkDownloadView { urls, next: 0, stopped: false, failure }
}

/// The well-formed downloads: no more chunks handed out than listed.
pub open spec fn download_wf(d: ChunkDownloadView) -> bool {
    0 <= d.next <= d.urls.len()
}

/// The next chunk to fetch, if the download goes on.
pub open spec fn download_next(d: ChunkDownloadView) -> (ChunkDownloadView, Option<Seq<char>>) {
    if !d.stopped && 0 <= d.next < d.urls.len() {
        (ChunkDownloadView { next: d.next + 1, ..d }, Some(d.urls[d.next]))
    } else {
        (d, None)
    }
}

/// The chunks handed out by `k` further requests for the next chunk.
pub open spec fn handed_out(d: ChunkDownloadView, k: nat) -> Seq<Seq<char>>
    decreases k,
{
    if k == 0 {
        Seq::empty()
    } else {
        match download_next(d).1 {
            Some(u) => seq![u] + handed_out(download_next(d).0, (k - 1) as nat),
            None => Seq::empty(),
        }
    }
}

impl ChunkDownload {
    /// A download of `urls` that reports `failure` for a chunk that cannot
    /// be fetched.
    pub fn new(urls: Vec<String>, failure: BodyStreamError) -> (d: Self)
        ensures
            d@ == fresh_download(urls@.map_values(|s: String| s@), failure),
    {
        ChunkDownload { urls, next: 0, stopped: false, failure }
    }

    /// The download that feeds the response: a chunk that cannot be fetched
    /// is reported as `SourceError`.
    pub fn for_response(urls: Vec<String>) -> (d: Self)
        ensures
            d@ == fresh_download(urls@.map_values(|s: String| s@), BodyStreamError::SourceError),
    {
        Self::new(urls, BodyStreamError::SourceError)
    }

    /// The download that feeds both the response and the copy in S3: a chunk
    /// that cannot be fetched is reported as `ChunkError`.
    pub fn for_mirror(urls: Vec<String>) -> (d: Self)
        ensures
            d@ == fresh_download(urls@.map_values(|s: String| s@), BodyStreamError::ChunkError),
    {
        Self::new(urls, BodyStreamError::ChunkError)
    }

    /// The URL of the next chunk to fetch, or `None` when the download is
    /// over.
    pub fn next_chunk(&mut self) -> (url: Option<String>)
        ensures
            (final(self)@, match url {
                Some(u) => Some(u@),
                None => None,
            }) == download_next(old(self)@),
    {
        if !self.stopped && self.next < self.urls.len() {
            let url = self.urls[self.next].clone();
            self.next = self.next + 1;
            Some(url)
        } else {
            None
        }
    }

    /// The chunk could not be fetched: the download stops, and this is the
    /// error to pass on.
    pub fn chunk_failed(&mut self) -> (err: BodyStreamError)
        ensures
            err == old(self)@.failure,
            final(self)@ == (ChunkDownloadView { stopped: true, ..old(self)@ }),
    {
        self.stopped = true;
        self.failure
    }

    /// Nobody listens to the download any more: it stops.
    pub fn receivers_gone(&mut self)
        ensures
            final(self)@ == (ChunkDownloadView { stopped: true, ..old(self)@ }),
    {
        self.stopped = true;
    }
}

proof fn lemma_handed_out_rest(d: ChunkDownloadView)
    requires
        download_wf(d),
        !d.stopped,
    ensures
        handed_out(d, (d.urls.len() - d.next) as nat) == d.urls.skip(d.next),
        download_next(
            ChunkDownloadView { next: d.urls.len() as int, ..d },
        ).1 is None,
    decreases d.urls.len() - d.next,
{
    if d.next < d.urls.len() {
        let d2 = download_next(d).0;
        lemma_handed_out_rest(d2);
        assert(d.urls.skip(d.next) =~= seq![d.urls[d.next]] + d.urls.skip(d.next + 1));
    } else {
        assert(d.urls.skip(d.next) =~= Seq::<Seq<char>>::empty());
    }
}

/// A download that nothing stops hands out every chunk URL once, in the
/// order of the playlist, and then nothing more.
pub proof fn lemma_chunks_in_playlist_order(urls: Seq<Seq<char>>, failure: BodyStreamError)
    ensures
        handed_out(fresh_download(urls, failure), urls.len()) == urls,
        download_next(ChunkDownloadView { next: urls.len() as int, ..fresh_download(urls, failure) }).1 is None,
{
    lemma_handed_out_rest(fresh_download(urls, failure));
    assert(urls.skip(0) =~= urls);
}

/// Once a download stopped (a chunk failed, or nobody listens), no further
/// chunk is handed out.
pub proof fn lemma_stopped_hands_out_nothing(d: ChunkDownloadView, k: nat)
    requires
        d.stopped,
    ensures
        handed_out(d, k) == Seq::<Seq<char>>::empty(),
{
}

} // verus!
