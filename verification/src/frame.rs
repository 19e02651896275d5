//! The resident DMX frame buffer.
//!
//! One 513-byte buffer holds the frame the bridge transmits: byte 0 is the
//! start code, fixed at zero, and bytes 1..=512 are the channel values.
//! Each arriving datagram overwrites the leading channel bytes in place —
//! truncated at 512 channels, and leaving the trailing channels at their
//! prior values when the datagram is shorter. There is no queue: the newest
//! datagram silently supersedes the frame content.

use vstd::prelude::*;
use vstd::pervasive::VecAdditionalExecFns;

verus! {

/// Channels carried in one DMX frame.
pub const CHANNEL_COUNT: usize = 512;

/// Bytes in one frame on the wire: the start code plus the channels.
pub const FRAME_LEN: usize = 513;

/// How many leading channel bytes a datagram of this payload overwrites:
/// the whole payload, truncated at the channel count.
pub open spec fn payload_span(p: Seq<u8>) -> int {
    if p.len() <= CHANNEL_COUNT { p.len() as int } else { CHANNEL_COUNT as int }
}

/// The frame after one datagram lands: channel bytes 1..=span carry the
/// payload, every other byte — the start code included — keeps its prior
/// value.
pub open spec fn apply_datagram_spec(frame: Seq<u8>, p: Seq<u8>) -> Seq<u8> {
    Seq::new(
        frame.len(),
        |i: int| if 1 <= i && i < 1 + payload_span(p) { p[i - 1] } else { frame[i] },
    )
}

/// The frame after a sequence of datagrams lands in order.
pub open spec fn apply_all_spec(frame: Seq<u8>, ps: Seq<Seq<u8>>) -> Seq<u8>
    decreases ps.len(),
{
    if ps.len() == 0 {
        frame
    } else {
        apply_all_spec(apply_datagram_spec(frame, ps[0]), ps.subrange(1, ps.len() as int))
    }
}

/// The resident frame buffer.
pub struct FrameBuffer {
    pub data: Vec<u8>,
}

impl View for FrameBuffer {
    type V = Seq<u8>;

    open spec fn view(&self) -> Seq<u8> {
        self.data@
    }
}

impl FrameBuffer {
    /// The buffer has the wire length and a zero start code.
    pub open spec fn wf(&self) -> bool {
        &&& self@.len() == FRAME_LEN
        &&& self@[0] == 0
    }

    /// A fresh frame: all channels zero, start code zero.
    pub fn new() -> (f: FrameBuffer)
        ensures
            f.wf(),
            forall|i: int| 0 <= i < FRAME_LEN ==> f@[i] == 0,
    {
        let mut data: Vec<u8> = Vec::new();
        let mut i: usize = 0;
        while i < FRAME_LEN
            invariant
                i <= FRAME_LEN,
                data@.len() == i,
                forall|j: int| 0 <= j < i ==> data@[j] == 0,
            decreases FRAME_LEN - i,
        {
            data.push(0);
            i = i + 1;
        }
        FrameBuffer { data }
    }

    /// Lands one datagram: the payload overwrites channel bytes 1..=span,
    /// the start code and the channels past the payload keep their prior
    /// values.
    pub fn apply_datagram(&mut self, payload: &[u8])
        requires
            old(self).wf(),
        ensures
            final(self).wf(),
            final(self)@ == apply_datagram_spec(old(self)@, payload@),
            final(self)@[0] == old(self)@[0],
            forall|i: int|
                1 <= i < 1 + payload_span(payload@) ==> final(self)@[i] == payload@[i - 1],
            forall|i: int|
                1 + payload_span(payload@) <= i < FRAME_LEN ==> final(self)@[i] == old(self)@[i],
    {
        let n: usize = if payload.len() < CHANNEL_COUNT {
            payload.len()
        } else {
            CHANNEL_COUNT
        };
        let mut i: usize = 0;
        while i < n
            invariant
                i <= n,
                n == payload_span(payload@),
                n < FRAME_LEN,
                payload@.len() >= n,
                self@.len() == FRAME_LEN,
                forall|j: int| 1 <= j < 1 + i ==> self@[j] == payload@[j - 1],
                forall|j: int| 0 <= j < FRAME_LEN && !(1 <= j < 1 + i) ==> self@[j] == old(self)@[j],
            decreases n - i,
        {
            self.data.set(i + 1, payload[i]);
            i = i + 1;
        }
        proof {
            assert(self@ =~= apply_datagram_spec(old(self)@, payload@));
        }
    }

    /// The frame bytes, ready to be written to the line.
    pub fn as_slice(&self) -> (s: &[u8])
        ensures
            s@ == self@,
    {
        self.data.as_slice()
    }

    /// One byte of the frame.
    pub fn get(&self, i: usize) -> (b: u8)
        requires
            self.wf(),
            i < FRAME_LEN,
        ensures
            b == self@[i as int],
    {
        self.data[i]
    }
}

/// Last write wins: after a burst of datagrams lands in order, the channel
/// bytes covered by the final datagram carry exactly its payload, and the
/// start code is untouched. (Channels past the final payload keep whatever
/// the earlier datagrams or the prior frame left there.)
pub proof fn lemma_last_datagram_wins(frame: Seq<u8>, ps: Seq<Seq<u8>>)
    requires
        frame.len() == FRAME_LEN,
        ps.len() > 0,
    ensures
        apply_all_spec(frame, ps).len() == FRAME_LEN,
        apply_all_spec(frame, ps)[0] == frame[0],
        forall|i: int|
            1 <= i < 1 + payload_span(ps.last()) ==> apply_all_spec(frame, ps)[i] == ps.last()[i
                - 1],
    decreases ps.len(),
{
    let rest = ps.subrange(1, ps.len() as int);
    let f1 = apply_datagram_spec(frame, ps[0]);
    assert(f1.len() == FRAME_LEN);
    if ps.len() == 1 {
        assert(apply_all_spec(f1, rest) == f1);
        assert(ps.last() == ps[0]);
    } else {
        lemma_last_datagram_wins(f1, rest);
        assert(rest.last() == ps.last());
    }
}

} // verus!
