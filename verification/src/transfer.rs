//! The framed transfer engine: bytes are cut into frames of one fixed size
//! for the wire, and put together again from what arrives under a declared
//! number of frames.
//!
//! Both directions use the same frame size. The engine reads no socket: the
//! caller reads, and tells the `Receiver` what arrived.

use vstd::prelude::*;
use vstd::slice::{slice_subrange, slice_to_vec};

verus! {

/// Number of bytes in a full frame.
pub const BUFF_SIZE: usize = 4096;

/// The number of frames that `len` bytes are cut into: as many as are needed
/// to hold them, and one, empty, for no bytes at all.
pub open spec fn frame_count(len: nat) -> nat {
    if len == 0 {
        1
    } else {
        ((len + BUFF_SIZE - 1) / (BUFF_SIZE as int)) as nat
    }
}

/// Frame number `i` of `data`: the bytes from `i` full frames on, up to one
/// frame of them.
pub open spec fn frame_at(data: Seq<u8>, i: int) -> Seq<u8> {
    let start = i * BUFF_SIZE;
    let end = if start + BUFF_SIZE <= data.len() {
        start + BUFF_SIZE
    } else {
        data.len() as int
    };
    data.subrange(start, end)
}

/// The frames that `data` is sent in.
pub open spec fn frames_of(data: Seq<u8>) -> Seq<Seq<u8>> {
    Seq::new(frame_count(data.len()), |i: int| frame_at(data, i))
}

/// The byte sequences of a list of frames.
pub open spec fn frame_views(frames: Seq<Vec<u8>>) -> Seq<Seq<u8>> {
    frames.map_values(|f: Vec<u8>| f@)
}

/// The bytes of `chunks`, one chunk after the other.
pub open spec fn reassembled(chunks: Seq<Seq<u8>>) -> Seq<u8>
    decreases chunks.len(),
{
    if chunks.len() == 0 {
        Seq::empty()
    } else {
        reassembled(chunks.drop_last()) + chunks.last()
    }
}

/// Cuts `contents` into the frames it is sent in: every frame but the last
/// is full, the last holds what is left, and no bytes give one empty frame.
pub fn split_binary_for_network(contents: Vec<u8>) -> (frames: Vec<Vec<u8>>)
    ensures
        frame_views(frames@) == frames_of(contents@),
{
    let mut result: Vec<Vec<u8>> = Vec::new();
    let total = contents.len();
    if total <= BUFF_SIZE {
        assert(frame_count(total as nat) == 1);
        assert(frame_at(contents@, 0) == contents@);
        result.push(contents);
        assert(frame_views(result@) =~= frames_of(contents@));
        return result;
    }
    let mut start: usize = 0;
    while start < total
        invariant
            total == contents.len(),
            start <= total,
            start == result.len() * BUFF_SIZE || start == total,
            start == total ==> result.len() == frame_count(total as nat),
            start < total ==> result.len() < frame_count(total as nat),
            forall|k: int| 0 <= k < result.len() ==> (#[trigger] result[k])@ == frame_at(contents@, k),
        decreases total - start,
    {
        let end = if total - start > BUFF_SIZE {
            start + BUFF_SIZE
        } else {
            total
        };
        let frame = slice_to_vec(slice_subrange(contents.as_slice(), start, end));
        assert(frame@ == frame_at(contents@, result.len() as int));
        result.push(frame);
        start = end;
    }
    assert(frame_views(result@) =~= frames_of(contents@));
    result
}

/// What a receiver knows in the middle of a transfer.
pub struct Progress {
    /// Bytes still to come before the declared frames are consumed.
    pub remaining: nat,
    /// Bytes kept so far, in the order of arrival.
    pub bytes: Seq<u8>,
}

/// The start of a transfer of `frames` frames.
pub open spec fn started(frames: nat) -> Progress {
    Progress { remaining: frames * (BUFF_SIZE as nat), bytes: Seq::empty() }
}

/// `p` after `len` more bytes were consumed.
pub open spec fn after_bytes(p: Progress, len: nat) -> nat {
    if len >= p.remaining {
        0
    } else {
        (p.remaining - len) as nat
    }
}

/// `p` after `chunk` arrived and was kept.
pub open spec fn after_chunk(p: Progress, chunk: Seq<u8>) -> Progress {
    Progress { remaining: after_bytes(p, chunk.len()), bytes: p.bytes + chunk }
}

/// `p` after `chunks` arrived, one after the other.
pub open spec fn after_chunks(p: Progress, chunks: Seq<Seq<u8>>) -> Progress
    decreases chunks.len(),
{
    if chunks.len() == 0 {
        p
    } else {
        after_chunk(after_chunks(p, chunks.drop_last()), chunks.last())
    }
}

/// The receiving side of one transfer.
pub struct Receiver {
    remaining: u64,
    buffer: Vec<u8>,
}

impl View for Receiver {
    type V = Progress;

    closed spec fn view(&self) -> Progress {
        Progress { remaining: self.remaining as nat, bytes: self.buffer@ }
    }
}

impl Receiver {
    /// The receiver for a transfer declared as `frames` frames; none for a
    /// declaration of no frame, which is a failed transfer at once.
    pub fn begin(frames: u32) -> (r: Option<Receiver>)
        ensures
            (r is None) == (frames == 0),
            r matches Some(t) ==> t@ == started(frames as nat),
    {
        if frames == 0 {
            None
        } else {
            let declared: u64 = frames as u64;
            assert(declared * BUFF_SIZE <= u64::MAX) by (nonlinear_arith)
                requires
                    declared <= u32::MAX,
                    BUFF_SIZE == 4096,
            ;
            Some(Receiver { remaining: declared * (BUFF_SIZE as u64), buffer: Vec::new() })
        }
    }

    /// Whether bytes are still to come: the caller reads on while this holds.
    pub fn wants_more(&self) -> (r: bool)
        ensures
            r == (self@.remaining > 0),
    {
        self.remaining > 0
    }

    /// Counts `len` bytes that arrived and were stored elsewhere.
    pub fn skip(&mut self, len: usize)
        ensures
            final(self)@ == (Progress { remaining: after_bytes(old(self)@, len as nat), ..old(self)@ }),
    {
        if len as u64 >= self.remaining {
            self.remaining = 0;
        } else {
            self.remaining = self.remaining - len as u64;
        }
    }

    /// Keeps `chunk`, exactly the bytes that one read returned, and counts
    /// them.
    pub fn accept(&mut self, chunk: &[u8])
        ensures
            final(self)@ == after_chunk(old(self)@, chunk@),
    {
        let mut copy = slice_to_vec(chunk);
        self.buffer.append(&mut copy);
        self.skip(chunk.len());
    }

    /// The bytes kept so far.
    pub fn received(&self) -> (r: &Vec<u8>)
        ensures
            r@ == self@.bytes,
    {
        &self.buffer
    }

    /// Ends the transfer: the bytes kept, if all declared frames were
    /// consumed; none for a transfer that was cut short.
    pub fn finish(self) -> (r: Option<Vec<u8>>)
        ensures
            (r is Some) == (self@.remaining == 0),
            r matches Some(b) ==> b@ == self@.bytes,
    {
        if self.remaining == 0 {
            Some(self.buffer)
        } else {
            None
        }
    }
}

/// What arrived is what was kept: the bytes after some chunks are the bytes
/// before them and then the chunks in order, and the bytes still to come
/// went down by their lengths, not below zero.
pub proof fn lemma_after_chunks(p: Progress, chunks: Seq<Seq<u8>>)
    ensures
        after_chunks(p, chunks).bytes == p.bytes + reassembled(chunks),
        after_chunks(p, chunks).remaining == after_bytes(p, reassembled(chunks).len()),
    decreases chunks.len(),
{
    if chunks.len() > 0 {
        lemma_after_chunks(p, chunks.drop_last());
        assert(p.bytes + (reassembled(chunks.drop_last()) + chunks.last()) =~= (p.bytes
            + reassembled(chunks.drop_last())) + chunks.last());
    } else {
        assert(p.bytes + reassembled(chunks) =~= p.bytes);
    }
}

/// The first `k` frames of `data` hold its first bytes, up to `k` full
/// frames of them.
proof fn lemma_frames_prefix(data: Seq<u8>, k: nat)
    requires
        k <= frame_count(data.len()),
    ensures
        reassembled(frames_of(data).take(k as int)) == data.subrange(
            0,
            if k * BUFF_SIZE <= data.len() {
                (k * BUFF_SIZE) as int
            } else {
                data.len() as int
            },
        ),
    decreases k,
{
    let frames = frames_of(data);
    if k == 0 {
        assert(reassembled(frames.take(0)) =~= data.subrange(0, 0));
    } else {
        lemma_frames_prefix(data, (k - 1) as nat);
        let front = frames.take(k as int);
        assert(front.drop_last() =~= frames.take(k - 1));
        assert(front.last() == frame_at(data, k - 1));
        let cut = (k - 1) * BUFF_SIZE;
        assert(cut <= data.len());
        let end = if k * BUFF_SIZE <= data.len() {
            (k * BUFF_SIZE) as int
        } else {
            data.len() as int
        };
        assert(data.subrange(0, cut) + data.subrange(cut, end) =~= data.subrange(0, end));
    }
}

/// Cutting bytes into frames and putting the frames together again gives the
/// bytes back, whatever their number.
pub proof fn lemma_split_reassemble(data: Seq<u8>)
    ensures
        reassembled(frames_of(data)) == data,
{
    let frames = frames_of(data);
    lemma_frames_prefix(data, frames.len());
    assert(frames.take(frames.len() as int) =~= frames);
    assert(data.subrange(0, data.len() as int) =~= data);
}

/// A receiver that was started for the frames of `data` and took them in
/// order holds `data`. It has consumed all that was declared exactly where
/// `data` fills its frames; after a last frame that is not full it still
/// waits for the bytes that the frame lacks.
pub proof fn lemma_transfer_round_trip(data: Seq<u8>)
    ensures
        after_chunks(started(frames_of(data).len()), frames_of(data)).bytes == data,
        after_chunks(started(frames_of(data).len()), frames_of(data)).remaining
            == frames_of(data).len() * BUFF_SIZE - data.len(),
{
    let frames = frames_of(data);
    lemma_after_chunks(started(frames.len()), frames);
    lemma_split_reassemble(data);
    assert(Seq::<u8>::empty() + data =~= data);
}

} // verus!
