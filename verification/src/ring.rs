//! Fixed-capacity sample rings feeding the spectrum analyzer, and the tap
//! stages that copy samples into them.
//!
//! Each ring stores the raw bit pattern of one 32-bit sample per slot; the
//! writer overwrites the oldest slot on wrap, and a reader takes the most
//! recent `n` slots in write order. Staleness is acceptable by design: the
//! visualizer only ever looks at the latest window.
use vstd::prelude::*;

verus! {

/// Capacity of each analyzer ring, in samples.
pub const FFT_BUFFER_SIZE: usize = 2048;

/// Ring of recent music-chain samples, as bit patterns.
#[derive(Debug)]
pub struct FftSampleBuffer {
    buffer: Vec<u32>,
    write_pos: usize,
}

impl FftSampleBuffer {
    /// Full capacity allocated and every slot holding zero.
    pub closed spec fn wf(self) -> bool {
        &&& self.buffer@.len() == FFT_BUFFER_SIZE
        &&& self.write_pos < FFT_BUFFER_SIZE
    }

    /// The stored bit patterns, oldest-to-newest order not applied.
    pub closed spec fn contents(self) -> Seq<u32> {
        self.buffer@
    }

    /// Index of the slot the next sample will land in.
    pub closed spec fn position(self) -> int {
        self.write_pos as int
    }

    /// A fresh ring: all slots zero, write position at the start.
    pub fn new() -> (r: FftSampleBuffer)
        ensures
            r.wf(),
            r.position() == 0,
            r.contents() == Seq::<u32>::new(FFT_BUFFER_SIZE as nat, |i: int| 0u32),
    {
        let mut buffer: Vec<u32> = Vec::new();
        let mut i: usize = 0;
        while i < FFT_BUFFER_SIZE
            invariant
                i <= FFT_BUFFER_SIZE,
                buffer@.len() == i,
                forall|j: int| 0 <= j < i ==> buffer@[j] == 0u32,
            decreases FFT_BUFFER_SIZE - i,
        {
            buffer.push(0);
            i += 1;
        }
        proof {
            assert(buffer@ =~= Seq::<u32>::new(FFT_BUFFER_SIZE as nat, |i: int| 0u32));
        }
        FftSampleBuffer { buffer, write_pos: 0 }
    }

    /// Store one sample's bits at the write position and advance it,
    /// wrapping at the capacity.
    pub fn push(&mut self, bits: u32)
        requires
            old(self).wf(),
        ensures
            final(self).wf(),
            final(self).contents() == old(self).contents().update(old(self).position(), bits),
            final(self).position() == (old(self).position() + 1) % (FFT_BUFFER_SIZE as int),
    {
        let pos = self.write_pos;
        self.buffer.set(pos, bits);
        self.write_pos = (pos + 1) % FFT_BUFFER_SIZE;
    }

    /// The `count` most recent samples, oldest first. Slots never written
    /// read as zero.
    pub fn get_latest(&self, count: usize) -> (r: Vec<u32>)
        requires
            self.wf(),
            count <= FFT_BUFFER_SIZE,
        ensures
            r@.len() == count,
            forall|i: int|
                0 <= i < count ==> r@[i] == self.contents()[
                    (self.position() + FFT_BUFFER_SIZE - count + i) % (FFT_BUFFER_SIZE as int)
                ],
    {
        let mut r: Vec<u32> = Vec::new();
        let mut i: usize = 0;
        while i < count
            invariant
                self.wf(),
                count <= FFT_BUFFER_SIZE,
                i <= count,
                r@.len() == i,
                forall|j: int|
                    0 <= j < i ==> r@[j] == self.contents()[
                        (self.position() + FFT_BUFFER_SIZE - count + j) % (FFT_BUFFER_SIZE as int)
                    ],
            decreases count - i,
        {
            let pos = (self.write_pos + FFT_BUFFER_SIZE - count + i) % FFT_BUFFER_SIZE;
            r.push(self.buffer[pos]);
            i += 1;
        }
        r
    }

    /// Reset the write position and zero every slot.
    pub fn clear(&mut self)
        requires
            old(self).wf(),
        ensures
            final(self).wf(),
            final(self).position() == 0,
            final(self).contents() == Seq::<u32>::new(FFT_BUFFER_SIZE as nat, |i: int| 0u32),
    {
        self.write_pos = 0;
        let mut i: usize = 0;
        while i < FFT_BUFFER_SIZE
            invariant
                i <= FFT_BUFFER_SIZE,
                self.buffer@.len() == FFT_BUFFER_SIZE,
                self.write_pos == 0,
                forall|j: int| 0 <= j < i ==> self.buffer@[j] == 0u32,
            decreases FFT_BUFFER_SIZE - i,
        {
            self.buffer.set(i, 0);
            i += 1;
        }
        proof {
            assert(self.buffer@ =~= Seq::<u32>::new(FFT_BUFFER_SIZE as nat, |i: int| 0u32));
        }
    }
}

/// Ring of recent ambient-mix samples, as bit patterns. Behaves exactly as
/// the music ring; the two exist so that neither layer's tap disturbs the
/// other's window.
#[derive(Debug)]
pub struct AmbientSampleBuffer {
    ring: FftSampleBuffer,
}

impl AmbientSampleBuffer {
    /// Full capacity allocated, write position in range.
    pub closed spec fn wf(self) -> bool {
        self.ring.wf()
    }

    /// The stored bit patterns.
    pub closed spec fn contents(self) -> Seq<u32> {
        self.ring.contents()
    }

    /// Index of the slot the next sample will land in.
    pub closed spec fn position(self) -> int {
        self.ring.position()
    }

    /// A fresh ring: all slots zero, write position at the start.
    pub fn new() -> (r: AmbientSampleBuffer)
        ensures
            r.wf(),
            r.position() == 0,
            r.contents() == Seq::<u32>::new(FFT_BUFFER_SIZE as nat, |i: int| 0u32),
    {
        AmbientSampleBuffer { ring: FftSampleBuffer::new() }
    }

    /// Store one sample's bits and advance the write position.
    pub fn push(&mut self, bits: u32)
        requires
            old(self).wf(),
        ensures
            final(self).wf(),
            final(self).contents() == old(self).contents().update(old(self).position(), bits),
            final(self).position() == (old(self).position() + 1) % (FFT_BUFFER_SIZE as int),
    {
        self.ring.push(bits);
    }

    /// The `count` most recent samples, oldest first.
    pub fn get_latest(&self, count: usize) -> (r: Vec<u32>)
        requires
            self.wf(),
            count <= FFT_BUFFER_SIZE,
        ensures
            r@.len() == count,
            forall|i: int|
                0 <= i < count ==> r@[i] == self.contents()[
                    (self.position() + FFT_BUFFER_SIZE - count + i) % (FFT_BUFFER_SIZE as int)
                ],
    {
        self.ring.get_latest(count)
    }
}

/// Tap stage of the music chain: every sample passes through unchanged and
/// its bits are recorded in the owned ring.
#[derive(Debug)]
pub struct AnalyzingSource {
    ring: FftSampleBuffer,
}

impl AnalyzingSource {
    /// The ring the tap writes to.
    pub closed spec fn ring_spec(self) -> FftSampleBuffer {
        self.ring
    }

    /// A tap writing into the given ring.
    pub fn new(sample_buffer: FftSampleBuffer) -> (r: AnalyzingSource)
        ensures
            r.ring_spec() == sample_buffer,
    {
        AnalyzingSource { ring: sample_buffer }
    }

    /// Pass one sample through, recording its bits.
    pub fn feed(&mut self, bits: u32) -> (out: u32)
        requires
            old(self).ring_spec().wf(),
        ensures
            out == bits,
            final(self).ring_spec().wf(),
            final(self).ring_spec().contents() == old(self).ring_spec().contents().update(
                old(self).ring_spec().position(),
                bits,
            ),
    {
        self.ring.push(bits);
        bits
    }

    /// Read access to the ring for the analyzer.
    pub fn ring(&self) -> (r: &FftSampleBuffer)
        ensures
            *r == self.ring_spec(),
    {
        &self.ring
    }
}

/// Tap stage of the ambient mix: every sample passes through unchanged and
/// its bits are recorded in the owned ambient ring.
#[derive(Debug)]
pub struct AmbientAnalyzingSource {
    ring: AmbientSampleBuffer,
}

impl AmbientAnalyzingSource {
    /// The ring the tap writes to.
    pub closed spec fn ring_spec(self) -> AmbientSampleBuffer {
        self.ring
    }

    /// A tap writing into the given ring.
    pub fn new(sample_buffer: AmbientSampleBuffer) -> (r: AmbientAnalyzingSource)
        ensures
            r.ring_spec() == sample_buffer,
    {
        AmbientAnalyzingSource { ring: sample_buffer }
    }

    /// Pass one sample through, recording its bits.
    pub fn feed(&mut self, bits: u32) -> (out: u32)
        requires
            old(self).ring_spec().wf(),
        ensures
            out == bits,
            final(self).ring_spec().wf(),
            final(self).ring_spec().contents() == old(self).ring_spec().contents().update(
                old(self).ring_spec().position(),
                bits,
            ),
    {
        self.ring.push(bits);
        bits
    }

    /// Read access to the ring for the analyzer.
    pub fn ring(&self) -> (r: &AmbientSampleBuffer)
        ensures
            *r == self.ring_spec(),
    {
        &self.ring
    }
}

} // verus!
