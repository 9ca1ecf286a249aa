//! The resumable streaming upload state machine.
//!
//! A [`StreamingTransferWriter`] owns one upload session. Callers append
//! bytes with [`StreamingTransferWriter::write`]; the embedding program asks
//! for the next chunk PUT with [`StreamingTransferWriter::plan_chunk`],
//! performs the HTTP request, and feeds the server's answer back through
//! [`StreamingTransferWriter::apply_chunk_response`]. The server may accept
//! only part of a chunk; the unaccepted tail stays in the buffer and is
//! merged with later writes, because a retry of the tail alone would violate
//! the server's minimum size for non-final chunks.

use vstd::prelude::*;

use crate::wire::{content_range_header, content_range_seq, parse_range_end, range_header_end};

verus! {

/// Chunk size the storage service documentation recommends for uploads.
pub const RECOMMENDED_UPLOAD_CHUNK_SIZE: usize = 8388608;

/// Lifecycle of one upload session. There is no state reversal: once the
/// session is completed or cancelled the writer rejects further bytes.
#[derive(Clone, Copy, Debug, PartialEq, Eq, Structural)]
pub enum UploadState {
    Streaming,
    Completed,
    Cancelled,
}

/// Everything that can go wrong while driving an upload or a fetch.
#[derive(Debug, PartialEq, Eq)]
pub enum UploadError {
    /// Session initiation answered with a non-2xx status or no `Location`.
    SessionInitFailed,
    /// The session is already completed or cancelled.
    SessionTerminated,
    /// A non-final chunk was requested with fewer buffered bytes than the
    /// minimum chunk size: a caller invariant violation.
    InsufficientBuffer,
    /// The server finalized the object although non-final bytes remain.
    PrematureCompletion,
    /// A 308 answer carried no `Range` header.
    MissingRangeHeader,
    /// A 308 answer carried a `Range` header that is malformed or reports an
    /// extent outside what was sent.
    InvalidRange,
    /// Any other status on a chunk PUT; carries the status and response body.
    ChunkUploadFailed { status: u16, response_body: String },
    /// Cancellation was not acknowledged with status 499.
    CancelFailed { status: u16 },
    /// An object GET answered with a non-2xx status.
    ObjectFetchFailed { status: u16 },
}

/// One chunk PUT, ready to be issued: the absolute object offset of its
/// first byte, its body, and the total-length field of `Content-Range`
/// (`None` renders as `*`, meaning more bytes follow).
#[derive(Debug)]
pub struct ChunkRequest {
    pub offset: usize,
    pub body: Vec<u8>,
    pub total: Option<usize>,
}

impl ChunkRequest {
    /// The `Content-Range: bytes lo-hi/total` header value for this chunk:
    /// the lower bound is the chunk's offset and the upper bound is the
    /// offset of its final byte.
    pub fn content_range(&self) -> (h: Vec<u8>)
        requires
            self.body@.len() >= 1,
            self.offset + self.body@.len() <= usize::MAX,
        ensures
            h@ == content_range_seq(
                self.offset as nat,
                (self.offset + self.body@.len() - 1) as nat,
                self.total,
            ),
    {
        let hi = self.offset + self.body.len() - 1;
        content_range_header(self.offset, hi, self.total)
    }
}

/// Stateful writer for one resumable upload session.
pub struct StreamingTransferWriter {
    upload_session_uri: String,
    minimum_upload_chunk_size: usize,
    object_upload_position: usize,
    buffer: Vec<u8>,
    state: UploadState,
    written: Ghost<Seq<u8>>,
}

impl StreamingTransferWriter {
    /// The session URI that authenticates every request of this upload.
    pub closed spec fn spec_session_uri(&self) -> Seq<char> {
        self.upload_session_uri@
    }

    /// Minimum body length of a non-final chunk.
    pub closed spec fn spec_min_chunk(&self) -> int {
        self.minimum_upload_chunk_size as int
    }

    /// Count of bytes the server has confirmed; the next absolute offset.
    pub closed spec fn spec_position(&self) -> int {
        self.object_upload_position as int
    }

    /// Bytes written by the caller but not yet confirmed by the server.
    pub closed spec fn spec_buffer(&self) -> Seq<u8> {
        self.buffer@
    }

    /// Lifecycle state of the session.
    pub closed spec fn spec_state(&self) -> UploadState {
        self.state
    }

    /// The complete history of bytes the caller has written.
    pub closed spec fn written(&self) -> Seq<u8> {
        self.written@
    }

    /// Well-formedness: while the session is streaming, the buffer is
    /// exactly the still-unconfirmed tail of the write history, so the
    /// confirmed position plus the buffer accounts for every written byte.
    pub open spec fn inv(&self) -> bool {
        &&& self.spec_min_chunk() >= 1
        &&& self.spec_position() + self.spec_buffer().len() <= usize::MAX
        &&& self.spec_position() <= self.written().len()
        &&& (self.spec_state() is Streaming ==> self.spec_buffer() == self.written().skip(
            self.spec_position(),
        ))
    }

    /// Body length of the chunk that `plan_chunk(last)` cuts from a
    /// non-empty buffer: the whole buffer when it is final and fits below
    /// the minimum, the minimum chunk size otherwise.
    pub open spec fn planned_body_len(&self, last: bool) -> int {
        if last && self.spec_buffer().len() <= self.spec_min_chunk() {
            self.spec_buffer().len() as int
        } else {
            self.spec_min_chunk()
        }
    }

    /// A writer for an already-initiated session.
    pub fn new(upload_session_uri: String, minimum_upload_chunk_size: usize) -> (w: Self)
        requires
            minimum_upload_chunk_size >= 1,
        ensures
            w.inv(),
            w.spec_session_uri() == upload_session_uri@,
            w.spec_min_chunk() == minimum_upload_chunk_size,
            w.spec_position() == 0,
            w.spec_buffer() == Seq::<u8>::empty(),
            w.written() == Seq::<u8>::empty(),
            w.spec_state() is Streaming,
    {
        let w = StreamingTransferWriter {
            upload_session_uri,
            minimum_upload_chunk_size,
            object_upload_position: 0,
            buffer: Vec::new(),
            state: UploadState::Streaming,
            written: Ghost(Seq::empty()),
        };
        proof {
            assert(w.spec_buffer() =~= w.written().skip(0));
        }
        w
    }

    /// Interpret the session-initiation response: a 2xx status whose
    /// `Location` header carries the session URI starts the session; any
    /// other answer fails the initiation.
    pub fn from_initiation_response(
        status: u16,
        location: Option<String>,
        minimum_upload_chunk_size: usize,
    ) -> (r: Result<Self, UploadError>)
        requires
            minimum_upload_chunk_size >= 1,
        ensures
            match r {
                Ok(w) => {
                    &&& 200 <= status < 300
                    &&& location matches Some(uri) && w.spec_session_uri() == uri@
                    &&& w.inv()
                    &&& w.spec_min_chunk() == minimum_upload_chunk_size
                    &&& w.spec_position() == 0
                    &&& w.spec_buffer() == Seq::<u8>::empty()
                    &&& w.written() == Seq::<u8>::empty()
                    &&& w.spec_state() is Streaming
                },
                Err(e) => {
                    &&& e is SessionInitFailed
                    &&& !(200 <= status < 300 && location is Some)
                },
            },
    {
        if !(200 <= status && status < 300) {
            return Err(UploadError::SessionInitFailed);
        }
        match location {
            Some(uri) => Ok(Self::new(uri, minimum_upload_chunk_size)),
            None => Err(UploadError::SessionInitFailed),
        }
    }

    /// Append bytes to the buffer. Every byte is accepted while the session
    /// streams; a terminated session rejects the write. The position and
    /// confirmed bytes never change here: chunks are cut separately.
    pub fn write(&mut self, buf: &[u8]) -> (r: Result<usize, UploadError>)
        requires
            old(self).inv(),
            old(self).spec_position() + old(self).spec_buffer().len() + buf@.len() <= usize::MAX,
        ensures
            final(self).inv(),
            final(self).spec_session_uri() == old(self).spec_session_uri(),
            final(self).spec_min_chunk() == old(self).spec_min_chunk(),
            final(self).spec_position() == old(self).spec_position(),
            final(self).spec_state() == old(self).spec_state(),
            match r {
                Ok(n) => {
                    &&& old(self).spec_state() is Streaming
                    &&& n == buf@.len()
                    &&& final(self).spec_buffer() == old(self).spec_buffer() + buf@
                    &&& final(self).written() == old(self).written() + buf@
                },
                Err(e) => {
                    &&& e is SessionTerminated
                    &&& !(old(self).spec_state() is Streaming)
                    &&& *final(self) == *old(self)
                },
            },
    {
        match self.state {
            UploadState::Streaming => {},
            _ => {
                return Err(UploadError::SessionTerminated);
            },
        }
        let ghost pre_buffer = self.buffer@;
        let mut i: usize = 0;
        while i < buf.len()
            invariant
                i <= buf@.len(),
                self.buffer@ == pre_buffer + buf@.take(i as int),
                self.upload_session_uri == old(self).upload_session_uri,
                self.minimum_upload_chunk_size == old(self).minimum_upload_chunk_size,
                self.object_upload_position == old(self).object_upload_position,
                self.state == old(self).state,
                self.written == old(self).written,
                pre_buffer.len() + buf@.len() + old(self).spec_position() <= usize::MAX,
            decreases buf@.len() - i,
        {
            self.buffer.push(buf[i]);
            proof {
                assert(pre_buffer + buf@.take(i + 1) =~= (pre_buffer + buf@.take(i as int)).push(
                    buf@[i as int],
                ));
            }
            i = i + 1;
        }
        proof {
            assert(buf@.take(buf@.len() as int) =~= buf@);
            self.written = Ghost(self.written@ + buf@);
            assert(self.spec_buffer() =~= self.written().skip(self.spec_position()));
        }
        Ok(buf.len())
    }

    /// True when enough bytes are buffered that a non-final chunk can be cut
    /// and bytes would still remain to finalize the object with.
    pub fn ready_chunk(&self) -> (r: bool)
        ensures
            r == (self.spec_buffer().len() > self.spec_min_chunk()),
    {
        self.buffer.len() > self.minimum_upload_chunk_size
    }

    /// Number of bytes buffered and not yet confirmed by the server.
    pub fn buffered_len(&self) -> (r: usize)
        ensures
            r == self.spec_buffer().len(),
    {
        self.buffer.len()
    }

    /// Count of bytes the server has confirmed receiving.
    pub fn position(&self) -> (r: usize)
        ensures
            r == self.spec_position(),
    {
        self.object_upload_position
    }

    /// The configured minimum body length for non-final chunks.
    pub fn minimum_chunk_size(&self) -> (r: usize)
        ensures
            r == self.spec_min_chunk(),
    {
        self.minimum_upload_chunk_size
    }

    /// The session URI all requests of this upload are addressed to.
    pub fn session_uri(&self) -> (r: &String)
        ensures
            r@ == self.spec_session_uri(),
    {
        &self.upload_session_uri
    }

    /// Current lifecycle state.
    pub fn upload_state(&self) -> (r: UploadState)
        ensures
            r == self.spec_state(),
    {
        self.state
    }

    /// Cut the next chunk PUT from the buffer.
    ///
    /// An empty buffer needs no request. A non-final chunk is exactly the
    /// minimum chunk size and leaves its total length open; the final chunk,
    /// once the buffer fits within the minimum, carries the whole buffer and
    /// declares the total object length as the position after its last byte.
    pub fn plan_chunk(&self, last: bool) -> (r: Result<Option<ChunkRequest>, UploadError>)
        requires
            self.inv(),
        ensures
            match r {
                Ok(planned) => match planned {
                    Some(req) => {
                        &&& self.spec_state() is Streaming
                        &&& self.spec_buffer().len() > 0
                        &&& (last || self.spec_buffer().len() >= self.spec_min_chunk())
                        &&& req.offset == self.spec_position()
                        &&& req.body@ == self.spec_buffer().take(self.planned_body_len(last))
                        &&& req.body@.len() == self.planned_body_len(last)
                        &&& (!last ==> req.body@.len() == self.spec_min_chunk())
                        &&& (last ==> req.body@.len() <= self.spec_min_chunk())
                        &&& req.total == (if last && self.spec_buffer().len()
                            <= self.spec_min_chunk() {
                            Some((self.spec_position() + self.spec_buffer().len()) as usize)
                        } else {
                            Option::<usize>::None
                        })
                    },
                    None => self.spec_buffer().len() == 0,
                },
                Err(e) => match e {
                    UploadError::SessionTerminated => {
                        &&& self.spec_buffer().len() > 0
                        &&& !(self.spec_state() is Streaming)
                    },
                    UploadError::InsufficientBuffer => {
                        &&& self.spec_state() is Streaming
                        &&& !last
                        &&& 0 < self.spec_buffer().len() < self.spec_min_chunk()
                    },
                    _ => false,
                },
            },
    {
        if self.buffer.len() == 0 {
            return Ok(None);
        }
        match self.state {
            UploadState::Streaming => {},
            _ => {
                return Err(UploadError::SessionTerminated);
            },
        }
        if !last && self.buffer.len() < self.minimum_upload_chunk_size {
            return Err(UploadError::InsufficientBuffer);
        }
        let is_final_form = last && self.buffer.len() <= self.minimum_upload_chunk_size;
        let body_len = if is_final_form {
            self.buffer.len()
        } else {
            self.minimum_upload_chunk_size
        };
        let total = if is_final_form {
            Some(self.object_upload_position + self.buffer.len())
        } else {
            None
        };
        let mut body: Vec<u8> = Vec::new();
        let mut i: usize = 0;
        while i < body_len
            invariant
                i <= body_len,
                body_len <= self.buffer@.len(),
                body@ == self.spec_buffer().take(i as int),
            decreases body_len - i,
        {
            body.push(self.buffer[i]);
            proof {
                assert(self.spec_buffer().take(i + 1) =~= self.spec_buffer().take(i as int).push(
                    self.spec_buffer()[i as int],
                ));
            }
            i = i + 1;
        }
        Ok(Some(ChunkRequest { offset: self.object_upload_position, body, total }))
    }

    /// Interpret the server's answer to a chunk PUT.
    ///
    /// 200 or 201 on the final chunk finalizes the upload. 308 reports, in
    /// `Range: bytes=0-E`, how much of the whole object the server has
    /// confirmed: the confirmed bytes leave the buffer and the position
    /// advances to `E + 1`; the unconfirmed tail stays buffered. Every
    /// other answer, and every malformed one, leaves the writer unchanged
    /// and surfaces an error.
    pub fn apply_chunk_response(
        &mut self,
        last: bool,
        status: u16,
        range_header: Option<&[u8]>,
        response_body: String,
    ) -> (r: Result<(), UploadError>)
        requires
            old(self).inv(),
            old(self).spec_state() is Streaming,
            old(self).spec_buffer().len() > 0,
            !last ==> old(self).spec_buffer().len() >= old(self).spec_min_chunk(),
        ensures
            final(self).inv(),
            final(self).spec_session_uri() == old(self).spec_session_uri(),
            final(self).spec_min_chunk() == old(self).spec_min_chunk(),
            final(self).written() == old(self).written(),
            final(self).spec_position() >= old(self).spec_position(),
            match r {
                Ok(()) => {
                    let n = old(self).planned_body_len(last);
                    let pos = old(self).spec_position();
                    &&& (status == 200 || status == 201 || status == 308)
                    &&& ((status == 200 || status == 201) ==> {
                        &&& last
                        &&& final(self).spec_state() is Completed
                        &&& final(self).spec_buffer() == Seq::<u8>::empty()
                        &&& final(self).spec_position() == pos + n
                        &&& (old(self).spec_buffer().len() <= old(self).spec_min_chunk()
                            ==> final(self).spec_position() == old(self).written().len())
                    })
                    &&& (status == 308 ==> {
                        &&& range_header matches Some(h)
                        &&& range_header_end(h@) matches Some(end)
                        &&& pos <= end <= pos + n - 1
                        &&& final(self).spec_state() is Streaming
                        &&& final(self).spec_position() == end + 1
                        &&& final(self).spec_buffer() == old(self).spec_buffer().skip(end + 1 - pos)
                        &&& final(self).spec_position() + final(self).spec_buffer().len() == pos
                            + old(self).spec_buffer().len()
                    })
                },
                Err(e) => {
                    let n = old(self).planned_body_len(last);
                    let pos = old(self).spec_position();
                    &&& *final(self) == *old(self)
                    &&& match e {
                        UploadError::PrematureCompletion => (status == 200 || status == 201)
                            && !last,
                        UploadError::MissingRangeHeader => status == 308 && range_header is None,
                        UploadError::InvalidRange => {
                            &&& status == 308
                            &&& range_header matches Some(h)
                            &&& !(range_header_end(h@) matches Some(end) && pos <= end <= pos + n
                                - 1)
                        },
                        UploadError::ChunkUploadFailed { status: s, response_body: b } => {
                            &&& s == status
                            &&& b@ == response_body@
                            &&& status != 200 && status != 201 && status != 308
                        },
                        _ => false,
                    }
                },
            },
    {
        let n = if last && self.buffer.len() <= self.minimum_upload_chunk_size {
            self.buffer.len()
        } else {
            self.minimum_upload_chunk_size
        };
        if status == 200 || status == 201 {
            if last {
                self.object_upload_position = self.object_upload_position + n;
                self.buffer.clear();
                self.state = UploadState::Completed;
                return Ok(());
            } else {
                return Err(UploadError::PrematureCompletion);
            }
        }
        if status == 308 {
            let h = match range_header {
                Some(h) => h,
                None => {
                    return Err(UploadError::MissingRangeHeader);
                },
            };
            let end = match parse_range_end(h) {
                Some(end) => end,
                None => {
                    return Err(UploadError::InvalidRange);
                },
            };
            if end < self.object_upload_position || end > self.object_upload_position + n - 1 {
                return Err(UploadError::InvalidRange);
            }
            let confirmed = end + 1 - self.object_upload_position;
            let tail = self.buffer.split_off(confirmed);
            self.buffer = tail;
            self.object_upload_position = end + 1;
            proof {
                assert(self.spec_buffer() =~= self.written().skip(self.spec_position()));
            }
            return Ok(());
        }
        Err(UploadError::ChunkUploadFailed { status, response_body })
    }

    /// Interpret the answer to a session `DELETE`: the service acknowledges
    /// cancellation with status 499 and nothing else. A session that is
    /// already completed or cancelled has nothing left to cancel.
    pub fn apply_cancel_response(&mut self, status: u16) -> (r: Result<(), UploadError>)
        requires
            old(self).inv(),
        ensures
            final(self).inv(),
            final(self).spec_session_uri() == old(self).spec_session_uri(),
            final(self).spec_min_chunk() == old(self).spec_min_chunk(),
            final(self).spec_position() == old(self).spec_position(),
            final(self).spec_buffer() == old(self).spec_buffer(),
            final(self).written() == old(self).written(),
            match r {
                Ok(()) => {
                    &&& old(self).spec_state() is Streaming
                    &&& status == 499
                    &&& final(self).spec_state() is Cancelled
                },
                Err(e) => {
                    &&& *final(self) == *old(self)
                    &&& match e {
                        UploadError::SessionTerminated => !(old(self).spec_state() is Streaming),
                        UploadError::CancelFailed { status: s } => {
                            &&& old(self).spec_state() is Streaming
                            &&& s == status
                            &&& status != 499
                        },
                        _ => false,
                    }
                },
            },
    {
        match self.state {
            UploadState::Streaming => {},
            _ => {
                return Err(UploadError::SessionTerminated);
            },
        }
        if status == 499 {
            self.state = UploadState::Cancelled;
            Ok(())
        } else {
            Err(UploadError::CancelFailed { status })
        }
    }
}

/// Conservation of written bytes: while the session streams, the confirmed
/// position plus the residual buffer accounts for exactly the bytes the
/// caller has written, at every observation point.
pub proof fn lemma_write_conservation(w: &StreamingTransferWriter)
    requires
        w.inv(),
        w.spec_state() is Streaming,
    ensures
        w.spec_position() + w.spec_buffer().len() == w.written().len(),
{
    assert(w.spec_buffer().len() == w.written().skip(w.spec_position()).len());
}

/// Round trip: once the buffer has drained, the confirmed prefix
/// `[0, position)` is the entire write history, so a conforming server that
/// stores what it confirms holds exactly the bytes that were written.
pub proof fn lemma_round_trip(w: &StreamingTransferWriter)
    requires
        w.inv(),
        w.spec_state() is Streaming,
        w.spec_buffer().len() == 0,
    ensures
        w.spec_position() == w.written().len(),
{
    lemma_write_conservation(w);
}

} // verus!
