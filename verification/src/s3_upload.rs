//! Mirroring a streamed track into S3 while it is being sent to the caller.
//!
//! The bytes are gathered in a buffer. While the buffer stays below the
//! configured part size the track is uploaded at the end as one object;
//! once the buffer reaches that size a multipart upload is started, and
//! every time the buffer holds at least the S3 minimum part size (5 MiB) it
//! is sent as the next part. When the stream ends the rest of the buffer is
//! sent as the last part and the upload is completed; when the stream fails
//! or a request fails the multipart upload is aborted.
//!
//! `S3Upload` holds the decisions: given what just happened it says which
//! request to make next. The requests are made by the caller.
use vstd::prelude::*;
use crate::byte_stream::BodyStreamError;

verus! {

/// The smallest part S3 accepts in a multipart upload, but for the last.
pub const MIN_PART_SIZE: usize = 5242880;

/// A part of a multipart upload that S3 has accepted.
pub struct CompletedPart {
    pub part_number: i32,
    pub e_tag: Option<String>,
}

impl View for CompletedPart {
    type V = (i32, Option<Seq<char>>);

    open spec fn view(&self) -> (i32, Option<Seq<char>>) {
        (self.part_number, crate::domain_models::opt_str(self.e_tag))
    }
}

/// Where the upload stands.
#[derive(Clone, Copy, Debug, PartialEq, Eq, Structural)]
pub enum UploadPhase {
    /// Waiting for the next item of the stream.
    Receiving,
    /// Waiting for S3 to start the multipart upload.
    CreatingUpload,
    /// Waiting for S3 to accept a part; more of the stream follows.
    UploadingPart,
    /// Waiting for S3 to accept the last part.
    UploadingLastPart,
    /// Nothing more will be requested.
    Finished,
}

/// What happened: an item of the stream, or the answer to a request.
pub enum UploadEvent {
    /// Bytes of the track.
    Chunk(Vec<u8>),
    /// The stream reported an error.
    StreamFailed(BodyStreamError),
    /// The receiver fell behind the stream and lost this many items.
    Lagged(u64),
    /// The stream ended.
    Closed,
    /// S3 started the multipart upload; the id it gave, if any.
    UploadCreated(Option<String>),
    /// S3 refused to start the multipart upload.
    CreateFailed,
    /// S3 accepted the part; its entity tag, if any.
    PartUploaded(Option<String>),
    /// S3 refused the part.
    PartFailed,
}

/// The request to make next.
pub enum UploadAction {
    /// Wait for the next item of the stream.
    Receive,
    /// Start a multipart upload of the track.
    CreateUpload,
    /// Send `data` as part `part_number` of the multipart upload `upload_id`.
    UploadPart { upload_id: String, part_number: i32, data: Vec<u8> },
    /// Abort the multipart upload, then stop.
    Abort { upload_id: String },
    /// Complete the multipart upload with these parts, then stop.
    Complete { upload_id: String, parts: Vec<CompletedPart> },
    /// Put `data` as one object, then stop.
    PutObject { data: Vec<u8> },
    /// Stop without another request.
    Stop,
}

pub enum UploadEventView {
    Chunk(Seq<u8>),
    StreamFailed(BodyStreamError),
    Lagged(u64),
    Closed,
    UploadCreated(Option<Seq<char>>),
    CreateFailed,
    PartUploaded(Option<Seq<char>>),
    PartFailed,
}

impl View for UploadEvent {
    type V = UploadEventView;

    open spec fn view(&self) -> UploadEventView {
        match self {
            UploadEvent::Chunk(b) => UploadEventView::Chunk(b@),
            UploadEvent::StreamFailed(e) => UploadEventView::StreamFailed(*e),
            UploadEvent::Lagged(n) => UploadEventView::Lagged(*n),
            UploadEvent::Closed => UploadEventView::Closed,
            UploadEvent::UploadCreated(id) => UploadEventView::UploadCreated(
                crate::domain_models::opt_str(*id),
            ),
            UploadEvent::CreateFailed => UploadEventView::CreateFailed,
            UploadEvent::PartUploaded(tag) => UploadEventView::PartUploaded(
                crate::domain_models::opt_str(*tag),
            ),
            UploadEvent::PartFailed => UploadEventView::PartFailed,
        }
    }
}

pub enum UploadActionView {
    Receive,
    CreateUpload,
    UploadPart { upload_id: Seq<char>, part_number: i32, data: Seq<u8> },
    Abort { upload_id: Seq<char> },
    Complete { upload_id: Seq<char>, parts: Seq<(i32, Option<Seq<char>>)> },
    PutObject { data: Seq<u8> },
    Stop,
}

impl View for UploadAction {
    type V = UploadActionView;

    open spec fn view(&self) -> UploadActionView {
        match self {
            UploadAction::Receive => UploadActionView::Receive,
            UploadAction::CreateUpload => UploadActionView::CreateUpload,
            UploadAction::UploadPart { upload_id, part_number, data } => UploadActionView::UploadPart {
                upload_id: upload_id@,
                part_number: *part_number,
                data: data@,
            },
            UploadAction::Abort { upload_id } => UploadActionView::Abort { upload_id: upload_id@ },
            UploadAction::Complete { upload_id, parts } => UploadActionView::Complete {
                upload_id: upload_id@,
                parts: parts@.map_values(|p: CompletedPart| p@),
            },
            UploadAction::PutObject { data } => UploadActionView::PutObject { data: data@ },
            UploadAction::Stop => UploadActionView::Stop,
        }
    }
}

/// The decisions of one upload of a streamed track to S3.
pub struct S3Upload {
    threshold: usize,
    buffer: Vec<u8>,
    upload_id: Option<String>,
    parts: Vec<CompletedPart>,
    part_number: i32,
    phase: UploadPhase,
    received: Ghost<Seq<u8>>,
    part_data: Ghost<Seq<Seq<u8>>>,
    in_flight: Ghost<Seq<u8>>,
}

/// The model of an upload: the configured part size, the buffered bytes,
/// the id of the multipart upload once started, the accepted parts, the
/// number of the next part and the phase; and, in ghost, every byte
/// received so far, the bytes of each accepted part and of the part in
/// flight.
pub struct S3UploadView {
    pub threshold: usize,
    pub buffer: Seq<u8>,
    pub upload_id: Option<Seq<char>>,
    pub parts: Seq<(i32, Option<Seq<char>>)>,
    pub part_number: i32,
    pub phase: UploadPhase,
    pub received: Seq<u8>,
    pub part_data: Seq<Seq<u8>>,
    pub in_flight: Seq<u8>,
}

impl View for S3Upload {
    type V = S3UploadView;

    closed spec fn view(&self) -> S3UploadView {
        S3UploadView {
            threshold: self.threshold,
            buffer: self.buffer@,
            upload_id: crate::domain_models::opt_str(self.upload_id),
            parts: self.parts@.map_values(|p: CompletedPart| p@),
            part_number: self.part_number,
            phase: self.phase,
            received: self.received@,
            part_data: self.part_data@,
            in_flight: self.in_flight@,
        }
    }
}

/// The bytes of a sequence of parts, one after the other.
pub open spec fn joined(parts: Seq<Seq<u8>>) -> Seq<u8>
    decreases parts.len(),
{
    if parts.len() == 0 {
        Seq::empty()
    } else {
        joined(parts.drop_last()) + parts.last()
    }
}

/// The parts are numbered 1, 2, ... in order.
pub open spec fn numbered_from_one(parts: Seq<(i32, Option<Seq<char>>)>) -> bool {
    forall|i: int| 0 <= i < parts.len() ==> #[trigger] parts[i].0 == i + 1
}

/// The invariant of an upload that has not finished: the bytes received are
/// the accepted parts, then the part in flight, then the buffer; the parts
/// are numbered from one and the next number follows them; every accepted
/// part has at least the minimum size; a multipart upload exists as soon as
/// a part is sent; while receiving with a multipart upload open the buffer
/// is below the minimum part size; a part in flight exists only while
/// waiting for S3 to accept it, and the buffer is empty then.
pub open spec fn upload_wf(s: S3UploadView) -> bool {
    s.phase != UploadPhase::Finished ==> {
        &&& s.received == joined(s.part_data) + s.in_flight + s.buffer
        &&& s.parts.len() == s.part_data.len()
        &&& numbered_from_one(s.parts)
        &&& s.part_number == s.parts.len() + 1
        &&& forall|i: int| 0 <= i < s.part_data.len() ==> (#[trigger] s.part_data[i]).len() >= MIN_PART_SIZE
        &&& s.upload_id is None ==> s.parts.len() == 0
        &&& (s.phase == UploadPhase::Receiving || s.phase == UploadPhase::CreatingUpload) ==> s.in_flight.len() == 0
        &&& s.phase == UploadPhase::CreatingUpload ==> s.upload_id is None
        &&& s.phase == UploadPhase::Receiving && s.upload_id is Some ==> s.buffer.len() < MIN_PART_SIZE
        &&& (s.phase == UploadPhase::UploadingPart || s.phase == UploadPhase::UploadingLastPart) ==> s.buffer.len() == 0
        &&& s.phase == UploadPhase::UploadingPart ==> s.upload_id is Some && s.in_flight.len() >= MIN_PART_SIZE
        &&& s.phase == UploadPhase::UploadingLastPart ==> s.upload_id is Some && s.in_flight.len() > 0
    }
}

/// After the buffer grew or the multipart upload was started: send the
/// buffer as the next part when a multipart upload is open and the buffer
/// holds at least the minimum part size; otherwise wait for more bytes.
pub open spec fn send_part_or_receive(s: S3UploadView) -> (S3UploadView, UploadActionView) {
    if s.upload_id is Some && s.buffer.len() >= MIN_PART_SIZE {
        (
            S3UploadView {
                buffer: Seq::empty(),
                in_flight: s.buffer,
                phase: UploadPhase::UploadingPart,
                ..s
            },
            UploadActionView::UploadPart {
                upload_id: s.upload_id->0,
                part_number: s.part_number,
                data: s.buffer,
            },
        )
    } else {
        (S3UploadView { phase: UploadPhase::Receiving, ..s }, UploadActionView::Receive)
    }
}

/// After an error: abort the multipart upload if one was started, and stop.
pub open spec fn abort_or_stop(s: S3UploadView) -> (S3UploadView, UploadActionView) {
    match s.upload_id {
        Some(id) => (S3UploadView { phase: UploadPhase::Finished, ..s }, UploadActionView::Abort { upload_id: id }),
        None => (S3UploadView { phase: UploadPhase::Finished, ..s }, UploadActionView::Stop),
    }
}

/// When the stream has ended: without a multipart upload, put the buffer as
/// one object; with one, send the rest of the buffer as the last part, or
/// complete the upload when nothing is left.
pub open spec fn finish_stream(s: S3UploadView) -> (S3UploadView, UploadActionView) {
    match s.upload_id {
        None => (
            S3UploadView { buffer: Seq::empty(), phase: UploadPhase::Finished, ..s },
            UploadActionView::PutObject { data: s.buffer },
        ),
        Some(id) => if s.buffer.len() > 0 {
            (
                S3UploadView {
                    buffer: Seq::empty(),
                    in_flight: s.buffer,
                    phase: UploadPhase::UploadingLastPart,
                    ..s
                },
                UploadActionView::UploadPart { upload_id: id, part_number: s.part_number, data: s.buffer },
            )
        } else {
            (
                S3UploadView { parts: Seq::empty(), phase: UploadPhase::Finished, ..s },
                UploadActionView::Complete { upload_id: id, parts: s.parts },
            )
        },
    }
}

/// One decision of the upload: the next state and the request to make.
/// An event that does not fit the phase ends the upload without a request.
pub open spec fn upload_step(s: S3UploadView, e: UploadEventView) -> (S3UploadView, UploadActionView) {
    match (s.phase, e) {
        (UploadPhase::Receiving, UploadEventView::Chunk(b)) => {
            let grown = S3UploadView { buffer: s.buffer + b, received: s.received + b, ..s };
            if grown.upload_id is None && grown.buffer.len() >= grown.threshold {
                (S3UploadView { phase: UploadPhase::CreatingUpload, ..grown }, UploadActionView::CreateUpload)
            } else {
                send_part_or_receive(grown)
            }
        },
        (UploadPhase::Receiving, UploadEventView::StreamFailed(_)) => abort_or_stop(s),
        (UploadPhase::Receiving, UploadEventView::Lagged(_)) => abort_or_stop(s),
        (UploadPhase::Receiving, UploadEventView::Closed) => finish_stream(s),
        (UploadPhase::CreatingUpload, UploadEventView::UploadCreated(id)) => send_part_or_receive(
            S3UploadView { upload_id: id, ..s },
        ),
        (UploadPhase::UploadingPart, UploadEventView::PartUploaded(tag)) => (
            S3UploadView {
                parts: s.parts.push((s.part_number, tag)),
                part_data: s.part_data.push(s.in_flight),
                in_flight: Seq::empty(),
                part_number: (s.part_number + 1) as i32,
                phase: UploadPhase::Receiving,
                ..s
            },
            UploadActionView::Receive,
        ),
        (UploadPhase::UploadingLastPart, UploadEventView::PartUploaded(tag)) => (
            S3UploadView {
                parts: Seq::empty(),
                part_data: s.part_data.push(s.in_flight),
                in_flight: Seq::empty(),
                phase: UploadPhase::Finished,
                ..s
            },
            match s.upload_id {
                Some(id) => UploadActionView::Complete {
                    upload_id: id,
                    parts: s.parts.push((s.part_number, tag)),
                },
                None => UploadActionView::Stop,
            },
        ),
        (UploadPhase::UploadingPart, UploadEventView::PartFailed) => abort_or_stop(s),
        (UploadPhase::UploadingLastPart, UploadEventView::PartFailed) => abort_or_stop(s),
        _ => (S3UploadView { phase: UploadPhase::Finished, ..s }, UploadActionView::Stop),
    }
}

/// The bytes of the parts with one more part are those bytes followed by
/// the new part's; no parts hold no bytes.
pub proof fn lemma_joined_push(parts: Seq<Seq<u8>>, p: Seq<u8>)
    ensures
        joined(parts.push(p)) == joined(parts) + p,
        joined(Seq::empty()) == Seq::<u8>::empty(),
{
    assert(parts.push(p).drop_last() =~= parts);
}

impl S3Upload {
    /// A new upload whose multipart upload starts once `part_size` bytes are
    /// buffered.
    pub fn new(part_size: usize) -> (u: Self)
        ensures
            u@ == (S3UploadView {
                threshold: part_size,
                buffer: Seq::empty(),
                upload_id: None,
                parts: Seq::empty(),
                part_number: 1,
                phase: UploadPhase::Receiving,
                received: Seq::empty(),
                part_data: Seq::empty(),
                in_flight: Seq::empty(),
            }),
            upload_wf(u@),
    {
        let u = S3Upload {
            threshold: part_size,
            buffer: Vec::new(),
            upload_id: None,
            parts: Vec::new(),
            part_number: 1,
            phase: UploadPhase::Receiving,
            received: Ghost(Seq::empty()),
            part_data: Ghost(Seq::empty()),
            in_flight: Ghost(Seq::empty()),
        };
        assert(u@.parts =~= Seq::<(i32, Option<Seq<char>>)>::empty());
        assert(u@.buffer =~= Seq::<u8>::empty());
        assert(joined(Seq::<Seq<u8>>::empty()) + Seq::<u8>::empty() + Seq::<u8>::empty() =~= Seq::<u8>::empty());
        u
    }

    /// The phase the upload is in.
    pub fn phase(&self) -> (p: UploadPhase)
        ensures
            p == self@.phase,
    {
        self.phase
    }

    /// The number the next part will get.
    pub fn part_number(&self) -> (n: i32)
        ensures
            n == self@.part_number,
    {
        self.part_number
    }

    /// The number of bytes buffered.
    pub fn buffered(&self) -> (n: usize)
        ensures
            n == self@.buffer.len(),
    {
        self.buffer.len()
    }

    fn take_buffer(&mut self) -> (data: Vec<u8>)
        ensures
            data@ == old(self)@.buffer,
            final(self)@ == (S3UploadView { buffer: Seq::empty(), ..old(self)@ }),
    {
        let mut data: Vec<u8> = Vec::new();
        std::mem::swap(&mut data, &mut self.buffer);
        assert(self.buffer@ =~= Seq::<u8>::empty());
        data
    }

    fn send_part_or_receive(&mut self) -> (action: UploadAction)
        ensures
            (final(self)@, action@) == send_part_or_receive(old(self)@),
    {
        let ready = match &self.upload_id {
            Some(_) => self.buffer.len() >= MIN_PART_SIZE,
            None => false,
        };
        if ready {
            let upload_id = match &self.upload_id {
                Some(id) => id.clone(),
                None => String::new(),
            };
            let data = self.take_buffer();
            self.in_flight = Ghost(data@);
            self.phase = UploadPhase::UploadingPart;
            UploadAction::UploadPart { upload_id, part_number: self.part_number, data }
        } else {
            self.phase = UploadPhase::Receiving;
            UploadAction::Receive
        }
    }

    fn abort_or_stop(&mut self) -> (action: UploadAction)
        ensures
            (final(self)@, action@) == abort_or_stop(old(self)@),
    {
        self.phase = UploadPhase::Finished;
        match &self.upload_id {
            Some(id) => UploadAction::Abort { upload_id: id.clone() },
            None => UploadAction::Stop,
        }
    }

    fn finish_stream(&mut self) -> (action: UploadAction)
        ensures
            (final(self)@, action@) == finish_stream(old(self)@),
    {
        match &self.upload_id {
            None => {
                let data = self.take_buffer();
                self.phase = UploadPhase::Finished;
                UploadAction::PutObject { data }
            },
            Some(id) => {
                let upload_id = id.clone();
                if self.buffer.len() > 0 {
                    let data = self.take_buffer();
                    self.in_flight = Ghost(data@);
                    self.phase = UploadPhase::UploadingLastPart;
                    UploadAction::UploadPart { upload_id, part_number: self.part_number, data }
                } else {
                    let mut parts: Vec<CompletedPart> = Vec::new();
                    std::mem::swap(&mut parts, &mut self.parts);
                    self.phase = UploadPhase::Finished;
                    assert(self@.parts =~= Seq::<(i32, Option<Seq<char>>)>::empty());
                    UploadAction::Complete { upload_id, parts }
                }
            },
        }
    }

    fn on_chunk(&mut self, bytes: Vec<u8>) -> (action: UploadAction)
        requires
            old(self)@.phase == UploadPhase::Receiving,
        ensures
            (final(self)@, action@) == upload_step(old(self)@, UploadEventView::Chunk(bytes@)),
    {
        let mut bytes = bytes;
        let ghost b = bytes@;
        self.buffer.append(&mut bytes);
        self.received = Ghost(self.received@ + b);
        let creating = match &self.upload_id {
            None => self.buffer.len() >= self.threshold,
            Some(_) => false,
        };
        if creating {
            self.phase = UploadPhase::CreatingUpload;
            UploadAction::CreateUpload
        } else {
            self.send_part_or_receive()
        }
    }

    fn on_upload_created(&mut self, id: Option<String>) -> (action: UploadAction)
        requires
            old(self)@.phase == UploadPhase::CreatingUpload,
        ensures
            (final(self)@, action@) == upload_step(
                old(self)@,
                UploadEventView::UploadCreated(crate::domain_models::opt_str(id)),
            ),
    {
        self.upload_id = id;
        self.send_part_or_receive()
    }

    fn on_part_uploaded(&mut self, tag: Option<String>) -> (action: UploadAction)
        requires
            old(self)@.phase == UploadPhase::UploadingPart,
            old(self)@.part_number < i32::MAX,
        ensures
            (final(self)@, action@) == upload_step(
                old(self)@,
                UploadEventView::PartUploaded(crate::domain_models::opt_str(tag)),
            ),
    {
        let ghost tag_view = crate::domain_models::opt_str(tag);
        let part = CompletedPart { part_number: self.part_number, e_tag: tag };
        assert(part@ == (old(self)@.part_number, tag_view));
        self.parts.push(part);
        self.part_data = Ghost(self.part_data@.push(self.in_flight@));
        self.in_flight = Ghost(Seq::empty());
        self.part_number = self.part_number + 1;
        self.phase = UploadPhase::Receiving;
        assert(self@.parts =~= old(self)@.parts.push((old(self)@.part_number, tag_view)));
        UploadAction::Receive
    }

    fn on_last_part_uploaded(&mut self, tag: Option<String>) -> (action: UploadAction)
        requires
            old(self)@.phase == UploadPhase::UploadingLastPart,
        ensures
            (final(self)@, action@) == upload_step(
                old(self)@,
                UploadEventView::PartUploaded(crate::domain_models::opt_str(tag)),
            ),
    {
        let ghost tag_view = crate::domain_models::opt_str(tag);
        let part = CompletedPart { part_number: self.part_number, e_tag: tag };
        assert(part@ == (old(self)@.part_number, tag_view));
        self.parts.push(part);
        self.part_data = Ghost(self.part_data@.push(self.in_flight@));
        self.in_flight = Ghost(Seq::empty());
        self.phase = UploadPhase::Finished;
        let mut parts: Vec<CompletedPart> = Vec::new();
        std::mem::swap(&mut parts, &mut self.parts);
        assert(self@.parts =~= Seq::<(i32, Option<Seq<char>>)>::empty());
        assert(parts@.map_values(|p: CompletedPart| p@) =~= old(self)@.parts.push((old(self)@.part_number, tag_view)));
        match &self.upload_id {
            Some(id) => UploadAction::Complete { upload_id: id.clone(), parts },
            None => UploadAction::Stop,
        }
    }

    fn finish(&mut self) -> (action: UploadAction)
        ensures
            final(self)@ == (S3UploadView { phase: UploadPhase::Finished, ..old(self)@ }),
            action@ == UploadActionView::Stop,
    {
        self.phase = UploadPhase::Finished;
        UploadAction::Stop
    }

    /// Decides what to do after `ev`: updates the upload and returns the
    /// request to make next.
    pub fn on_event(&mut self, ev: UploadEvent) -> (action: UploadAction)
        requires
            upload_wf(old(self)@),
            old(self)@.phase == UploadPhase::UploadingPart && ev@ is PartUploaded ==> old(self)@.part_number < i32::MAX,
        ensures
            (final(self)@, action@) == upload_step(old(self)@, ev@),
            upload_wf(final(self)@),
    {
        let ghost s = self@;
        let ghost e = ev@;
        let action = match ev {
            UploadEvent::Chunk(bytes) => match self.phase {
                UploadPhase::Receiving => self.on_chunk(bytes),
                _ => self.finish(),
            },
            UploadEvent::StreamFailed(_) | UploadEvent::Lagged(_) => match self.phase {
                UploadPhase::Receiving => self.abort_or_stop(),
                _ => self.finish(),
            },
            UploadEvent::Closed => match self.phase {
                UploadPhase::Receiving => self.finish_stream(),
                _ => self.finish(),
            },
            UploadEvent::UploadCreated(id) => match self.phase {
                UploadPhase::CreatingUpload => self.on_upload_created(id),
                _ => self.finish(),
            },
            UploadEvent::CreateFailed => self.finish(),
            UploadEvent::PartUploaded(tag) => match self.phase {
                UploadPhase::UploadingPart => self.on_part_uploaded(tag),
                UploadPhase::UploadingLastPart => self.on_last_part_uploaded(tag),
                _ => self.finish(),
            },
            UploadEvent::PartFailed => match self.phase {
                UploadPhase::UploadingPart => self.abort_or_stop(),
                UploadPhase::UploadingLastPart => self.abort_or_stop(),
                _ => self.finish(),
            },
        };
        proof {
            lemma_step_keeps_wf(s, e);
        }
        action
    }
}

/// Every decision keeps the invariant of an unfinished upload.
pub proof fn lemma_step_keeps_wf(s: S3UploadView, e: UploadEventView)
    requires
        upload_wf(s),
        s.phase == UploadPhase::UploadingPart && e is PartUploaded ==> s.part_number < i32::MAX,
    ensures
        upload_wf(upload_step(s, e).0),
{
    let t = upload_step(s, e).0;
    match (s.phase, e) {
        (UploadPhase::UploadingPart, UploadEventView::PartUploaded(tag)) => {
            lemma_joined_push(s.part_data, s.in_flight);
            assert(t.received =~= joined(t.part_data) + t.in_flight + t.buffer);
            assert forall|i: int| 0 <= i < t.parts.len() implies #[trigger] t.parts[i].0 == i + 1 by {
                if i < s.parts.len() {
                    assert(t.parts[i] == s.parts[i]);
                }
            }
            assert forall|i: int| 0 <= i < t.part_data.len() implies (#[trigger] t.part_data[i]).len() >= MIN_PART_SIZE by {
                if i < s.part_data.len() {
                    assert(t.part_data[i] == s.part_data[i]);
                }
            }
            assert(upload_wf(t));
        },
        (UploadPhase::Receiving, UploadEventView::Chunk(b)) => {
            assert(s.received + b =~= joined(s.part_data) + s.in_flight + (s.buffer + b));
            assert(joined(s.part_data) + s.in_flight + (s.buffer + b) =~= joined(s.part_data) + (s.buffer + b) + Seq::<u8>::empty());
            assert(upload_wf(t));
        },
        (UploadPhase::Receiving, UploadEventView::Closed) => {
            assert(upload_wf(t));
        },
        (UploadPhase::CreatingUpload, UploadEventView::UploadCreated(id)) => {
            assert(joined(s.part_data) + s.in_flight + s.buffer =~= joined(s.part_data) + s.buffer + Seq::<u8>::empty());
            assert(upload_wf(t));
        },
        _ => {
            assert(upload_wf(t));
        },
    }
}

/// Completing the multipart upload sends every byte that was received, in
/// order: the parts are numbered 1, 2, ..., their bytes joined are the
/// whole stream, every part but the last has at least the minimum size, and
/// the upload completed is the one that was started.
pub proof fn lemma_complete_covers_stream(s: S3UploadView, e: UploadEventView)
    requires
        upload_wf(s),
        upload_step(s, e).1 is Complete,
    ensures
        ({
            let t = upload_step(s, e).0;
            let a = upload_step(s, e).1;
            &&& s.upload_id == Some(a->Complete_upload_id)
            &&& a->Complete_parts.len() == t.part_data.len()
            &&& numbered_from_one(a->Complete_parts)
            &&& forall|i: int| 0 <= i < a->Complete_parts.len() ==> (#[trigger] a->Complete_parts[i]).0 == i + 1
            &&& joined(t.part_data) == t.received
            &&& forall|i: int| 0 <= i < t.part_data.len() - 1 ==> (#[trigger] t.part_data[i]).len() >= MIN_PART_SIZE
            &&& t.phase == UploadPhase::Finished
        }),
{
    let t = upload_step(s, e).0;
    let a = upload_step(s, e).1;
    match (s.phase, e) {
        (UploadPhase::UploadingLastPart, UploadEventView::PartUploaded(tag)) => {
            lemma_joined_push(s.part_data, s.in_flight);
            assert(t.received =~= joined(t.part_data));
            let parts = s.parts.push((s.part_number, tag));
            assert forall|i: int| 0 <= i < parts.len() implies #[trigger] parts[i].0 == i + 1 by {
                if i < s.parts.len() {
                    assert(parts[i] == s.parts[i]);
                }
            }
            assert forall|i: int| 0 <= i < t.part_data.len() - 1 implies (#[trigger] t.part_data[i]).len() >= MIN_PART_SIZE by {
                assert(t.part_data[i] == s.part_data[i]);
            }
        },
        (UploadPhase::Receiving, UploadEventView::Closed) => {
            assert(s.received =~= joined(s.part_data));
        },
        _ => {},
    }
}

/// An upload that never grew to the configured part size ends with one
/// object that holds every byte received, and no multipart upload was
/// started.
pub proof fn lemma_single_object_is_whole_stream(s: S3UploadView, e: UploadEventView)
    requires
        upload_wf(s),
        upload_step(s, e).1 is PutObject,
    ensures
        upload_step(s, e).1->PutObject_data == s.received,
        s.upload_id is None,
        s.parts.len() == 0,
        upload_step(s, e).0.phase == UploadPhase::Finished,
{
    assert(s.part_data.len() == 0);
    assert(joined(s.part_data) =~= Seq::<u8>::empty());
    assert(s.received =~= s.buffer);
}

/// Parts are sent to the upload that was started, under the next number,
/// never empty, and but for the last with at least the minimum size.
pub proof fn lemma_part_sent_in_order(s: S3UploadView, e: UploadEventView)
    requires
        upload_wf(s),
        upload_step(s, e).1 is UploadPart,
    ensures
        ({
            let t = upload_step(s, e).0;
            let a = upload_step(s, e).1;
            &&& t.upload_id == Some(a->UploadPart_upload_id)
            &&& a->UploadPart_part_number == t.parts.len() + 1
            &&& a->UploadPart_data == t.in_flight
            &&& a->UploadPart_data.len() > 0
            &&& t.phase == UploadPhase::UploadingPart ==> a->UploadPart_data.len() >= MIN_PART_SIZE
            &&& t.phase == UploadPhase::UploadingPart || t.phase == UploadPhase::UploadingLastPart
        }),
{
}

/// The multipart upload is started only once the buffer holds the
/// configured part size, and only once.
pub proof fn lemma_create_at_threshold(s: S3UploadView, e: UploadEventView)
    requires
        upload_wf(s),
        upload_step(s, e).1 is CreateUpload,
    ensures
        upload_step(s, e).0.buffer.len() >= s.threshold,
        s.upload_id is None,
        upload_step(s, e).0.phase == UploadPhase::CreatingUpload,
{
}

/// An upload is aborted only when it was started, and aborting ends it.
pub proof fn lemma_abort_only_started(s: S3UploadView, e: UploadEventView)
    requires
        upload_step(s, e).1 is Abort,
    ensures
        s.upload_id == Some(upload_step(s, e).1->Abort_upload_id),
        upload_step(s, e).0.phase == UploadPhase::Finished,
{
}

/// A finished upload stays finished and asks for nothing more.
pub proof fn lemma_finished_is_final(s: S3UploadView, e: UploadEventView)
    requires
        s.phase == UploadPhase::Finished,
    ensures
        upload_step(s, e).0 == s,
        upload_step(s, e).1 == UploadActionView::Stop,
{
}

/// Every part that S3 accepts is recorded, after the parts accepted before
/// it, under its number and with the entity tag that S3 returned for it; the
/// last part goes into the completion of the upload in the same way.
pub proof fn lemma_accepted_part_keeps_tag(s: S3UploadView, tag: Option<Seq<char>>)
    requires
        upload_wf(s),
        s.phase == UploadPhase::UploadingPart ==> s.part_number < i32::MAX,
    ensures
        s.phase == UploadPhase::UploadingPart ==> {
            &&& upload_step(s, UploadEventView::PartUploaded(tag)).0.parts == s.parts.push((s.part_number, tag))
            &&& upload_step(s, UploadEventView::PartUploaded(tag)).0.parts.last() == (s.part_number, tag)
            &&& upload_step(s, UploadEventView::PartUploaded(tag)).1 == UploadActionView::Receive
        },
        s.phase == UploadPhase::UploadingLastPart ==> {
            let a = upload_step(s, UploadEventView::PartUploaded(tag)).1;
            &&& a is Complete
            &&& a->Complete_upload_id == s.upload_id->0
            &&& a->Complete_parts == s.parts.push((s.part_number, tag))
            &&& a->Complete_parts.last().1 == tag
            &&& a->Complete_parts.drop_last() == s.parts
        },
{
    assert(s.parts.push((s.part_number, tag)).drop_last() =~= s.parts);
}

/// How the upload answers the stream while receiving: bytes are buffered;
/// without a multipart upload one is started as soon as the buffer holds
/// the configured part size; with one, the buffer is sent as the next part
/// as soon as it holds the minimum part size; an error of the stream aborts
/// a started upload and otherwise just stops; the end of the stream puts
/// everything received as one object when no multipart upload was started,
/// and otherwise sends what is left as the last part, or completes the
/// upload with the accepted parts when nothing is left.
pub proof fn lemma_receiving_decisions(s: S3UploadView, b: Seq<u8>, err: BodyStreamError, n: u64)
    requires
        upload_wf(s),
        s.phase == UploadPhase::Receiving,
    ensures
        s.upload_id is None && s.buffer.len() + b.len() >= s.threshold ==> {
            &&& upload_step(s, UploadEventView::Chunk(b)).1 == UploadActionView::CreateUpload
            &&& upload_step(s, UploadEventView::Chunk(b)).0.buffer == s.buffer + b
        },
        s.upload_id is None && s.buffer.len() + b.len() < s.threshold ==> {
            &&& upload_step(s, UploadEventView::Chunk(b)).1 == UploadActionView::Receive
            &&& upload_step(s, UploadEventView::Chunk(b)).0.buffer == s.buffer + b
        },
        s.upload_id is Some && s.buffer.len() + b.len() >= MIN_PART_SIZE ==> {
            &&& upload_step(s, UploadEventView::Chunk(b)).1 == (UploadActionView::UploadPart {
                upload_id: s.upload_id->0,
                part_number: s.part_number,
                data: s.buffer + b,
            })
            &&& upload_step(s, UploadEventView::Chunk(b)).0.buffer.len() == 0
        },
        s.upload_id is Some && s.buffer.len() + b.len() < MIN_PART_SIZE ==> {
            &&& upload_step(s, UploadEventView::Chunk(b)).1 == UploadActionView::Receive
            &&& upload_step(s, UploadEventView::Chunk(b)).0.buffer == s.buffer + b
        },
        upload_step(s, UploadEventView::Chunk(b)).0.received == s.received + b,
        s.upload_id is Some ==> {
            &&& upload_step(s, UploadEventView::StreamFailed(err)).1 == (UploadActionView::Abort { upload_id: s.upload_id->0 })
            &&& upload_step(s, UploadEventView::Lagged(n)).1 == (UploadActionView::Abort { upload_id: s.upload_id->0 })
        },
        s.upload_id is None ==> {
            &&& upload_step(s, UploadEventView::StreamFailed(err)).1 == UploadActionView::Stop
            &&& upload_step(s, UploadEventView::Lagged(n)).1 == UploadActionView::Stop
        },
        s.upload_id is None ==> upload_step(s, UploadEventView::Closed).1 == (UploadActionView::PutObject { data: s.received }),
        s.upload_id is Some && s.buffer.len() > 0 ==> {
            &&& upload_step(s, UploadEventView::Closed).1 == (UploadActionView::UploadPart {
                upload_id: s.upload_id->0,
                part_number: s.part_number,
                data: s.buffer,
            })
            &&& upload_step(s, UploadEventView::Closed).0.phase == UploadPhase::UploadingLastPart
        },
        s.upload_id is Some && s.buffer.len() == 0 ==> upload_step(s, UploadEventView::Closed).1 == (UploadActionView::Complete {
            upload_id: s.upload_id->0,
            parts: s.parts,
        }),
{
    if s.upload_id is None {
        assert(s.part_data.len() == 0);
        assert(joined(s.part_data) =~= Seq::<u8>::empty());
        assert(s.received =~= s.buffer);
    }
}

/// While a multipart upload is being started: with an id, the buffer is
/// sent as the first part if it already holds the minimum part size, and
/// bytes are received otherwise; without an id, bytes are received and no
/// upload is open; when S3 refuses, the upload stops without a request.
pub proof fn lemma_creating_decisions(s: S3UploadView, id: Seq<char>)
    requires
        upload_wf(s),
        s.phase == UploadPhase::CreatingUpload,
    ensures
        s.buffer.len() >= MIN_PART_SIZE ==> upload_step(s, UploadEventView::UploadCreated(Some(id))).1
            == (UploadActionView::UploadPart { upload_id: id, part_number: 1, data: s.buffer }),
        s.buffer.len() < MIN_PART_SIZE ==> upload_step(s, UploadEventView::UploadCreated(Some(id))).1
            == UploadActionView::Receive,
        upload_step(s, UploadEventView::UploadCreated(Some(id))).0.upload_id == Some(id),
        upload_step(s, UploadEventView::UploadCreated(None)).1 == UploadActionView::Receive,
        upload_step(s, UploadEventView::UploadCreated(None)).0.upload_id is None,
        upload_step(s, UploadEventView::CreateFailed).1 == UploadActionView::Stop,
        upload_step(s, UploadEventView::CreateFailed).0.phase == UploadPhase::Finished,
{
}

/// A part that S3 refuses aborts the multipart upload.
pub proof fn lemma_part_refused_aborts(s: S3UploadView)
    requires
        upload_wf(s),
        s.phase == UploadPhase::UploadingPart || s.phase == UploadPhase::UploadingLastPart,
    ensures
        upload_step(s, UploadEventView::PartFailed).1 == (UploadActionView::Abort { upload_id: s.upload_id->0 }),
        upload_step(s, UploadEventView::PartFailed).0.phase == UploadPhase::Finished,
{
}

} // verus!
