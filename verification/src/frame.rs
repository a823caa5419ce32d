//! The framed-read state machine of the TCP transport.
//!
//! A reply arrives as arbitrary-sized chunks. The first four bytes,
//! once available, declare the plaintext length; chunks accumulate
//! until the buffer reaches `declared + 4` bytes or the peer closes the
//! connection. The declared length is authoritative: no payload byte is
//! handed out before the full declared count (or a close) is observed.

use vstd::prelude::*;

use crate::codec::{spec_be_u32, spec_clarify, spec_frame, spec_u32_be, clarify,
    lemma_be_roundtrip, lemma_clarify_obfuscate};
use crate::error::TransportError;

verus! {

/// The length declared by the first four bytes of a buffer.
pub open spec fn spec_declared_len(b: Seq<u8>) -> int {
    spec_be_u32(b[0], b[1], b[2], b[3]) as int
}

/// Whether a buffer holds a complete frame: the prefix has arrived and
/// the buffer has reached the declared payload length past it.
pub open spec fn spec_frame_complete(b: Seq<u8>) -> bool {
    b.len() >= 4 && b.len() >= spec_declared_len(b) + 4
}

/// The deciphered payload of a complete frame: exactly the declared
/// count of bytes past the prefix, clarified.
pub open spec fn spec_frame_payload(b: Seq<u8>) -> Seq<u8> {
    spec_clarify(b.subrange(4, spec_declared_len(b) + 4))
}

/// Accumulates the chunks of one framed reply.
pub struct FrameAccumulator {
    buf: Vec<u8>,
}

/// What a read loop should do next with an accumulator.
pub enum ReadEvent {
    /// Some bytes arrived.
    Data(Vec<u8>),
    /// The peer closed the connection.
    Closed,
    /// No progress was made within the timeout window.
    TimedOut,
}

/// The outcome of feeding one read event to the accumulator.
pub enum ReadStep {
    /// The frame is not complete yet: keep reading.
    Pending(FrameAccumulator),
    /// The frame is complete; this is its deciphered payload.
    Done(Vec<u8>),
    /// The reply cannot be completed.
    Failed(TransportError),
}

impl FrameAccumulator {
    /// The bytes collected so far.
    pub closed spec fn collected(&self) -> Seq<u8> {
        self.buf@
    }

    /// An empty accumulator, ready for the first chunk.
    pub fn new() -> (r: Self)
        ensures
            r.collected() == Seq::<u8>::empty(),
    {
        FrameAccumulator { buf: Vec::new() }
    }

    /// Appends one received chunk.
    pub fn push_chunk(&mut self, chunk: &[u8])
        ensures
            final(self).collected() == old(self).collected().add(chunk@),
    {
        let mut i: usize = 0;
        while i < chunk.len()
            invariant
                i <= chunk@.len(),
                self.buf@ == old(self).buf@.add(chunk@.take(i as int)),
            decreases chunk@.len() - i,
        {
            self.buf.push(chunk[i]);
            i += 1;
            proof {
                assert(old(self).buf@.add(chunk@.take(i - 1 as int)).push(chunk@[i - 1])
                    =~= old(self).buf@.add(chunk@.take(i as int)));
            }
        }
        proof {
            assert(chunk@.take(chunk@.len() as int) =~= chunk@);
        }
    }

    /// Whether the collected bytes form a complete frame.
    pub fn is_complete(&self) -> (r: bool)
        ensures
            r == spec_frame_complete(self.collected()),
    {
        if self.buf.len() < 4 {
            return false;
        }
        let declared: u32 = crate::frame::read_declared(&self.buf);
        // `declared + 4` fits in u64, so compare there.
        (self.buf.len() as u64) >= (declared as u64) + 4
    }

    /// Hands out the deciphered payload once the frame is complete.
    pub fn extract(&self) -> (r: Option<Vec<u8>>)
        ensures
            match r {
                Some(p) => spec_frame_complete(self.collected())
                    && p@ == spec_frame_payload(self.collected()),
                None => !spec_frame_complete(self.collected()),
            },
    {
        if !self.is_complete() {
            return None;
        }
        let declared: u32 = read_declared(&self.buf);
        let blen: usize = self.buf.len();
        proof {
            assert(declared as int + 4 <= blen as int);
        }
        let end: usize = (declared as usize) + 4;
        let cipher: &[u8] = self.buf.as_slice();
        let part = vstd::slice::slice_subrange(cipher, 4, end);
        let payload = clarify(part);
        proof {
            assert(part@ =~= self.collected().subrange(4, spec_declared_len(self.collected()) + 4));
        }
        Some(payload)
    }

    /// Feeds one read event: appends data and decides whether the reply
    /// is complete, still pending, or failed. A close before the
    /// declared length is `Incomplete`; a timeout is `Timeout`.
    pub fn step(self, event: ReadEvent) -> (r: ReadStep)
        ensures
            match event {
                ReadEvent::Data(chunk) => {
                    let b = self.collected().add(chunk@);
                    match r {
                        ReadStep::Pending(a) => a.collected() == b && !spec_frame_complete(b),
                        ReadStep::Done(p) => spec_frame_complete(b)
                            && p@ == spec_frame_payload(b),
                        ReadStep::Failed(_) => false,
                    }
                },
                ReadEvent::Closed => match r {
                    ReadStep::Pending(_) => false,
                    ReadStep::Done(p) => spec_frame_complete(self.collected())
                        && p@ == spec_frame_payload(self.collected()),
                    ReadStep::Failed(e) => !spec_frame_complete(self.collected())
                        && e == TransportError::Incomplete,
                },
                ReadEvent::TimedOut => (r matches ReadStep::Failed(e)
                    && e == TransportError::Timeout),
            },
    {
        match event {
            ReadEvent::Data(chunk) => {
                let mut acc = self;
                acc.push_chunk(chunk.as_slice());
                match acc.extract() {
                    Some(p) => ReadStep::Done(p),
                    None => ReadStep::Pending(acc),
                }
            },
            ReadEvent::Closed => {
                match self.extract() {
                    Some(p) => ReadStep::Done(p),
                    None => ReadStep::Failed(TransportError::Incomplete),
                }
            },
            ReadEvent::TimedOut => ReadStep::Failed(TransportError::Timeout),
        }
    }
}

/// Reads the declared length from the first four collected bytes.
fn read_declared(buf: &Vec<u8>) -> (r: u32)
    requires
        buf@.len() >= 4,
    ensures
        r as int == spec_declared_len(buf@),
{
    let b0 = buf[0];
    let b1 = buf[1];
    let b2 = buf[2];
    let b3 = buf[3];
    ((b0 as u32) << 24) | ((b1 as u32) << 16) | ((b2 as u32) << 8) | (b3 as u32)
}

/// A buffer holding exactly the frame of a plaintext is complete, and
/// its extracted payload is that plaintext — however the frame was
/// split into chunks, since chunk pushes concatenate.
pub proof fn lemma_frame_reassembly(m: Seq<u8>)
    requires
        m.len() <= u32::MAX,
    ensures
        spec_frame_complete(spec_frame(m)),
        spec_frame_payload(spec_frame(m)) == m,
{
    let b = spec_frame(m);
    lemma_be_roundtrip(m.len() as u32);
    assert(b[0] == spec_u32_be(m.len() as u32)[0]);
    assert(b[1] == spec_u32_be(m.len() as u32)[1]);
    assert(b[2] == spec_u32_be(m.len() as u32)[2]);
    assert(b[3] == spec_u32_be(m.len() as u32)[3]);
    assert(spec_declared_len(b) == m.len());
    assert(b.subrange(4, m.len() + 4 as int) =~= crate::codec::spec_obfuscate(m));
    lemma_clarify_obfuscate(m);
}

/// A buffer shorter than the declared length plus the prefix is not
/// complete: a close at that point yields `Incomplete`.
pub proof fn lemma_short_buffer_incomplete(b: Seq<u8>)
    requires
        b.len() < 4 || b.len() < spec_declared_len(b) + 4,
    ensures
        !spec_frame_complete(b),
{
}

} // verus!
