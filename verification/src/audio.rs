//! Cutting captured PCM audio into fixed-size frames with timestamps: 16 kHz mono
//! 16-bit audio in frames of 200 ms.
use vstd::prelude::*;

verus! {

pub const SAMPLE_RATE: u32 = 16000;
pub const CHANNELS: u16 = 1;
pub const BITS_PER_SAMPLE: u16 = 16;
/// Samples per frame: 200 ms at 16 kHz.
pub const FRAME_SAMPLES: usize = 3200;
/// Bytes per frame: two bytes per sample.
pub const FRAME_BYTES: usize = 6400;
/// The duration of a frame in microseconds.
pub const FRAME_DURATION_US: u64 = 200000;

/// The duration of a frame follows from its samples and the sample rate.
pub proof fn law_frame_duration()
    ensures
        FRAME_DURATION_US == (FRAME_SAMPLES as int) * 1000000 / (SAMPLE_RATE as int),
        FRAME_BYTES == FRAME_SAMPLES * 2,
{
}

/// Collects captured bytes and hands them out in frames of `FRAME_BYTES`, each with the
/// timestamp (in microseconds since capture began) of its first sample.
#[derive(Debug)]
pub struct AudioFramer {
    buffer: Vec<u8>,
    timestamp: u64,
}

/// The `i`-th frame of `all`.
pub open spec fn frame_at(all: Seq<u8>, i: int) -> Seq<u8> {
    all.subrange(i * FRAME_BYTES, i * FRAME_BYTES + FRAME_BYTES)
}

/// The model of a list of frames.
pub open spec fn frames_model(fs: Seq<(Vec<u8>, u64)>) -> Seq<(Seq<u8>, u64)> {
    Seq::new(fs.len(), |i: int| (fs[i].0@, fs[i].1))
}

proof fn lemma_frame_count(len: int, off: int, k: int)
    requires
        off == k * FRAME_BYTES,
        0 <= k,
        0 <= len - off < FRAME_BYTES,
    ensures
        k == len / (FRAME_BYTES as int),
{
    assert(k == len / 6400) by (nonlinear_arith)
        requires
            off == k * 6400,
            0 <= len - off < 6400,
    ;
}

proof fn lemma_budget(t: int, k: int, n: int)
    requires
        0 <= k < n,
        t + n * 200000 <= u64::MAX,
        0 <= t,
    ensures
        t + (k + 1) * 200000 <= u64::MAX,
{
    assert((k + 1) * 200000 <= n * 200000) by (nonlinear_arith)
        requires
            0 <= k < n,
    ;
}

/// The first `k` frames of `all`, joined, are its first `k` frames' worth of bytes.
proof fn lemma_frames_join(all: Seq<u8>, k: int)
    requires
        0 <= k,
        k * FRAME_BYTES <= all.len(),
    ensures
        Seq::new(k as nat, |i: int| frame_at(all, i)).flatten_alt() =~= all.subrange(0, k * FRAME_BYTES),
    decreases k,
{
    if k > 0 {
        let s = Seq::new(k as nat, |i: int| frame_at(all, i));
        assert(s.drop_last() =~= Seq::new((k - 1) as nat, |i: int| frame_at(all, i)));
        lemma_frames_join(all, k - 1);
        assert(all.subrange(0, k * FRAME_BYTES) =~= all.subrange(0, (k - 1) * FRAME_BYTES) + frame_at(all, k - 1));
    }
}

/// Framing loses, repeats and reorders no byte: the frames that `push` hands out for the
/// bytes `all` (what was pending followed by what was pushed), joined, followed by what
/// stays pending, are `all` again.
pub proof fn law_frames_rejoin(all: Seq<u8>)
    ensures
        ({
            let n = (all.len() as int) / (FRAME_BYTES as int);
            Seq::new(n as nat, |i: int| frame_at(all, i)).flatten_alt() + all.subrange(n * FRAME_BYTES, all.len() as int) == all
        }),
{
    let n = (all.len() as int) / (FRAME_BYTES as int);
    assert(n * 6400 <= all.len()) by (nonlinear_arith)
        requires
            n == all.len() / 6400,
    ;
    assert(0 <= n) by (nonlinear_arith)
        requires
            n == all.len() / 6400,
    ;
    lemma_frames_join(all, n);
    assert(all.subrange(0, n * FRAME_BYTES) + all.subrange(n * FRAME_BYTES, all.len() as int) =~= all);
}

impl AudioFramer {
    /// Bytes collected but not yet handed out.
    pub closed spec fn pending(&self) -> Seq<u8> {
        self.buffer@
    }

    /// The timestamp of the next frame.
    pub closed spec fn spec_timestamp(&self) -> u64 {
        self.timestamp
    }

    /// Fewer than a frame's bytes are pending.
    pub open spec fn wf(&self) -> bool {
        self.pending().len() < FRAME_BYTES
    }

    /// A framer at the start of a capture.
    pub fn new() -> (f: Self)
        ensures
            f.wf(),
            f.pending() == Seq::<u8>::empty(),
            f.spec_timestamp() == 0,
    {
        AudioFramer { buffer: Vec::new(), timestamp: 0 }
    }

    /// Takes captured bytes and returns the frames they complete, in order; the bytes that
    /// do not fill a frame stay pending.
    pub fn push(&mut self, data: &[u8]) -> (frames: Vec<(Vec<u8>, u64)>)
        requires
            old(self).wf(),
            old(self).spec_timestamp() + (((old(self).pending().len() + data@.len()) as int) / (FRAME_BYTES as int)) * FRAME_DURATION_US
                <= u64::MAX,
        ensures
            ({
                let all = old(self).pending() + data@;
                let n = (all.len() as int) / (FRAME_BYTES as int);
                &&& frames@.len() == n
                &&& forall|i: int| 0 <= i < n ==> (#[trigger] frames_model(frames@)[i]) == (frame_at(all, i), (old(self).spec_timestamp() + i * FRAME_DURATION_US) as u64)
                &&& final(self).pending() == all.subrange(n * FRAME_BYTES, all.len() as int)
                &&& final(self).spec_timestamp() == old(self).spec_timestamp() + n * FRAME_DURATION_US
                &&& final(self).wf()
            }),
    {
        let mut all: Vec<u8> = Vec::new();
        std::mem::swap(&mut all, &mut self.buffer);
        let ghost pend = all@;
        let mut j: usize = 0;
        while j < data.len()
            invariant
                j <= data@.len(),
                all@ == pend + data@.subrange(0, j as int),
            decreases data@.len() - j,
        {
            all.push(data[j]);
            assert(data@.subrange(0, j + 1) =~= data@.subrange(0, j as int).push(data@[j as int]));
            j = j + 1;
        }
        assert(data@.subrange(0, data@.len() as int) =~= data@);
        let ghost whole = all@;
        let ghost n: int = (whole.len() as int) / (FRAME_BYTES as int);
        let ghost t0 = self.timestamp as int;
        let len = all.len();
        let mut frames: Vec<(Vec<u8>, u64)> = Vec::new();
        let mut off: usize = 0;
        let ghost mut k: int = 0;
        assert(n * 6400 <= whole.len()) by (nonlinear_arith)
            requires
                n == whole.len() / 6400,
        ;
        while len - off >= FRAME_BYTES
            invariant
                len == whole.len(),
                all@ == whole,
                n == (whole.len() as int) / (FRAME_BYTES as int),
                t0 + n * 200000 <= u64::MAX,
                0 <= t0,
                0 <= k,
                off == k * FRAME_BYTES,
                off <= len,
                k <= n,
                frames@.len() == k,
                self.timestamp == t0 + k * 200000,
                forall|i: int| 0 <= i < k ==> (#[trigger] frames_model(frames@)[i]) == (frame_at(whole, i), (t0 + i * FRAME_DURATION_US) as u64),
            decreases len - off,
        {
            proof {
                assert(k < n) by (nonlinear_arith)
                    requires
                        off == k * 6400,
                        len - off >= 6400,
                        n == len / 6400,
                        0 <= k,
                ;
                lemma_budget(t0, k, n);
            }
            let mut frame: Vec<u8> = Vec::new();
            let mut i: usize = 0;
            while i < FRAME_BYTES
                invariant
                    len == all@.len(),
                    off + FRAME_BYTES <= len,
                    i <= FRAME_BYTES,
                    frame@ == all@.subrange(off as int, off + i),
                decreases FRAME_BYTES - i,
            {
                frame.push(all[off + i]);
                assert(all@.subrange(off as int, off + i + 1) =~= all@.subrange(off as int, off + i).push(all@[off + i]));
                i = i + 1;
            }
            let ghost before = frames@;
            frames.push((frame, self.timestamp));
            proof {
                assert forall|i: int| 0 <= i < k + 1 implies (#[trigger] frames_model(frames@)[i]) == (frame_at(whole, i), (t0 + i * FRAME_DURATION_US) as u64) by {
                    if i < k {
                        assert(frames@[i] == before[i]);
                        assert(frames_model(before)[i] == frames_model(frames@)[i]);
                    }
                }
            }
            self.timestamp = self.timestamp + FRAME_DURATION_US;
            off = off + FRAME_BYTES;
            proof {
                k = k + 1;
                assert(off == k * 6400) by (nonlinear_arith)
                    requires
                        off == (k - 1) * 6400 + 6400,
                ;
                assert(self.timestamp == t0 + k * 200000) by (nonlinear_arith)
                    requires
                        self.timestamp == t0 + (k - 1) * 200000 + 200000,
                ;
            }
        }
        proof {
            lemma_frame_count(len as int, off as int, k);
        }
        let mut rest: Vec<u8> = Vec::new();
        let mut i: usize = off;
        while i < len
            invariant
                len == all@.len(),
                off <= i <= len,
                rest@ == all@.subrange(off as int, i as int),
            decreases len - i,
        {
            rest.push(all[i]);
            assert(all@.subrange(off as int, i + 1) =~= all@.subrange(off as int, i as int).push(all@[i as int]));
            i = i + 1;
        }
        self.buffer = rest;
        frames
    }

    /// Ends the capture: the pending bytes, padded with zeros to a whole frame, with their
    /// timestamp; nothing when no bytes are pending.
    pub fn finish(&mut self) -> (last: Option<(Vec<u8>, u64)>)
        requires
            old(self).wf(),
        ensures
            final(self).pending() == Seq::<u8>::empty(),
            final(self).spec_timestamp() == old(self).spec_timestamp(),
            match last {
                None => old(self).pending().len() == 0,
                Some((f, t)) => old(self).pending().len() > 0 && t == old(self).spec_timestamp()
                    && f@ == old(self).pending() + Seq::new((FRAME_BYTES - old(self).pending().len()) as nat, |i: int| 0u8),
            },
    {
        if self.buffer.len() == 0 {
            return None;
        }
        let mut frame: Vec<u8> = Vec::new();
        std::mem::swap(&mut frame, &mut self.buffer);
        let ghost p = frame@;
        let ghost padding_len = (FRAME_BYTES - p.len()) as nat;
        while frame.len() < FRAME_BYTES
            invariant
                p.len() <= frame@.len() <= FRAME_BYTES,
                padding_len == FRAME_BYTES - p.len(),
                frame@ == p + Seq::new((frame@.len() - p.len()) as nat, |i: int| 0u8),
            decreases FRAME_BYTES - frame@.len(),
        {
            let ghost before = frame@;
            frame.push(0);
            assert(frame@ =~= p + Seq::new((frame@.len() - p.len()) as nat, |i: int| 0u8));
        }
        Some((frame, self.timestamp))
    }
}

} // verus!
