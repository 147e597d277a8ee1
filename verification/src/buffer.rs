//! Stream assembler: accumulates raw byte chunks pushed by a reader and
//! yields complete frames, however the byte stream was chunked.

use vstd::prelude::*;

use crate::codec::{expected_message, frame_ok, frame_total_len, lemma_encode_decode,
    spec_decode, spec_encode, spec_frame_len, sendable, HDR_LEN};
use crate::errors::Error;
use crate::msg::MessagesV;

verus! {

/// Byte accumulator with a close flag.
pub struct StreamBuf {
    data: Vec<u8>,
    closed: bool,
}

/// Mathematical model of a `StreamBuf`: the buffered bytes and the flag.
pub struct StreamBufV {
    pub data: Seq<u8>,
    pub closed: bool,
}

impl View for StreamBuf {
    type V = StreamBufV;

    closed spec fn view(&self) -> StreamBufV {
        StreamBufV { data: self.data@, closed: self.closed }
    }
}

/// Whether the buffered bytes start with one complete frame.
pub open spec fn has_complete_frame(d: Seq<u8>) -> bool {
    d.len() >= HDR_LEN && d.len() >= spec_frame_len(d)
}

/// The complete frame at the front of the buffered bytes.
pub open spec fn buffered_frame(d: Seq<u8>) -> Seq<u8>
    recommends
        has_complete_frame(d),
{
    d.take(spec_frame_len(d))
}

/// What one `pull` produced.
pub enum PullOutcome {
    /// The next complete frame, removed from the buffer.
    Frame(Vec<u8>),
    /// Not enough bytes buffered yet; the caller waits for more.
    Pending,
    /// The assembler was closed and no complete frame remains.
    Closed,
}

impl StreamBuf {
    /// An open, empty assembler.
    pub fn new() -> (b: Self)
        ensures
            b@.data.len() == 0,
            !b@.closed,
    {
        StreamBuf { data: Vec::new(), closed: false }
    }

    /// Appends a raw chunk. After `close`, pushing fails with a closed-error
    /// and the buffer is untouched.
    pub fn push(&mut self, chunk: Vec<u8>) -> (r: Result<(), Error>)
        ensures
            old(self)@.closed ==> r is Err && r->Err_0 is ClosedError && final(self)@ == old(
                self,
            )@,
            !old(self)@.closed ==> r is Ok && final(self)@.data == old(self)@.data + chunk@
                && !final(self)@.closed,
    {
        if self.closed {
            return Err(Error::ClosedError);
        }
        let mut chunk = chunk;
        self.data.append(&mut chunk);
        Ok(())
    }

    /// Closes the assembler; idempotent. Buffered bytes stay readable to
    /// `pull` until they no longer hold a complete frame.
    pub fn close(&mut self)
        ensures
            final(self)@.closed,
            final(self)@.data == old(self)@.data,
    {
        self.closed = true;
    }

    /// Whether the assembler was closed.
    pub fn is_closed(&self) -> (c: bool)
        ensures
            c == self@.closed,
    {
        self.closed
    }

    /// Yields the next complete frame if the buffered bytes hold one,
    /// removing it from the buffer; otherwise reports whether the caller
    /// should wait for more bytes or observe the close.
    pub fn pull(&mut self) -> (r: PullOutcome)
        ensures
            has_complete_frame(old(self)@.data) ==> (r matches PullOutcome::Frame(f) ==> f@ == old(
                self,
            )@.data.take(spec_frame_len(old(self)@.data)) && final(self)@.data == old(
                self,
            )@.data.skip(spec_frame_len(old(self)@.data)) && final(self)@.closed == old(
                self,
            )@.closed),
            has_complete_frame(old(self)@.data) ==> r is Frame,
            !has_complete_frame(old(self)@.data) ==> final(self)@ == old(self)@ && (r matches
                PullOutcome::Closed <==> old(self)@.closed) && (r matches PullOutcome::Pending
                <==> !old(self)@.closed),
    {
        if self.data.len() >= HDR_LEN {
            let total = frame_total_len(self.data.as_slice());
            if self.data.len() as u64 >= total {
                let at = total as usize;
                let mut tail = self.data.split_off(at);
                core::mem::swap(&mut self.data, &mut tail);
                return PullOutcome::Frame(tail);
            }
        }
        if self.closed {
            PullOutcome::Closed
        } else {
            PullOutcome::Pending
        }
    }
}

/// The buffer contents after pushing a sequence of chunks in order.
pub open spec fn pushed_all(d: Seq<u8>, chunks: Seq<Seq<u8>>) -> Seq<u8>
    decreases chunks.len(),
{
    if chunks.len() == 0 {
        d
    } else {
        pushed_all(d + chunks.first(), chunks.drop_first())
    }
}

/// Law: pushing chunks one after another buffers exactly their concatenation.
/// What `pull` yields therefore depends only on the byte stream, never on
/// how it was cut into chunks — one byte at a time included.
pub proof fn lemma_push_boundary_insensitive(d: Seq<u8>, chunks: Seq<Seq<u8>>)
    ensures
        pushed_all(d, chunks) == d + chunks.flatten(),
    decreases chunks.len(),
{
    if chunks.len() == 0 {
        assert(chunks.flatten() =~= Seq::<u8>::empty());
        assert(pushed_all(d, chunks) =~= d + chunks.flatten());
    } else {
        lemma_push_boundary_insensitive(d + chunks.first(), chunks.drop_first());
        assert(chunks.flatten() == chunks.first() + chunks.drop_first().flatten());
        assert(d + chunks.first() + chunks.drop_first().flatten() =~= d + chunks.flatten());
    }
}

/// Law: encode a message, cut the bytes into chunks any way at all, push
/// them in order into an empty assembler, pull, and decode — the result is
/// field for field the inbound image of the original message, whatever the
/// chunk boundaries were.
pub proof fn lemma_stream_round_trip(m: MessagesV, chunks: Seq<Seq<u8>>)
    requires
        sendable(m),
        chunks.flatten() == spec_encode(m),
    ensures
        pushed_all(Seq::empty(), chunks) == spec_encode(m),
        has_complete_frame(spec_encode(m)),
        buffered_frame(spec_encode(m)) == spec_encode(m),
        spec_encode(m).skip(spec_frame_len(spec_encode(m))) == Seq::<u8>::empty(),
        frame_ok(spec_encode(m)),
        spec_decode(spec_encode(m)) == expected_message(m),
{
    lemma_push_boundary_insensitive(Seq::empty(), chunks);
    assert(pushed_all(Seq::empty(), chunks) =~= spec_encode(m));
    lemma_encode_decode(m);
    let b = spec_encode(m);
    assert(buffered_frame(b) =~= b);
    assert(b.skip(spec_frame_len(b)) =~= Seq::<u8>::empty());
}

} // verus!
