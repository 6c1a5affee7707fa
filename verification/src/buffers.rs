use vstd::prelude::*;

verus! {

/// Number of samples a processing chunk holds.
pub const N_SAMPLES_PER_CHUNK: usize = 32;

/// One chunk of samples of one channel.
pub struct Buffer<T> {
    buf: [T; 32],
}

impl<T> View for Buffer<T> {
    type V = Seq<T>;

    closed spec fn view(&self) -> Seq<T> {
        self.buf@
    }
}

impl<T> Buffer<T> {
    /// Every chunk holds exactly `N_SAMPLES_PER_CHUNK` samples.
    pub broadcast proof fn lemma_chunk_len(b: &Buffer<T>)
        ensures
            #[trigger] b@.len() == N_SAMPLES_PER_CHUNK,
    {
    }
}

impl<T: Copy> Buffer<T> {
    /// A chunk with every sample equal to `value`.
    pub fn with_value(value: T) -> (b: Buffer<T>)
        ensures
            b@.len() == N_SAMPLES_PER_CHUNK,
            forall|i: int| 0 <= i < N_SAMPLES_PER_CHUNK ==> b@[i] == value,
    {
        Buffer { buf: [value; 32] }
    }

    /// Sets every sample to `value`.
    pub fn fill(&mut self, value: T)
        ensures
            final(self)@.len() == N_SAMPLES_PER_CHUNK,
            forall|i: int| 0 <= i < N_SAMPLES_PER_CHUNK ==> final(self)@[i] == value,
    {
        self.buf = [value; 32];
    }

    /// The samples of the chunk.
    pub fn get(&self) -> (s: &[T; 32])
        ensures
            s@ == self@,
    {
        &self.buf
    }

    /// The samples of the chunk, for writing.
    pub fn get_mut(&mut self) -> (s: &mut [T; 32])
        ensures
            (*s)@ == old(self)@,
            final(self)@ == (*final(s))@,
    {
        &mut self.buf
    }

    /// Sample `i` of the chunk.
    pub fn sample(&self, i: usize) -> (v: T)
        requires
            i < N_SAMPLES_PER_CHUNK,
        ensures
            v == self@[i as int],
    {
        self.buf[i]
    }

    /// Replaces sample `i` of the chunk by `value`.
    pub fn set_sample(&mut self, i: usize, value: T)
        requires
            i < N_SAMPLES_PER_CHUNK,
        ensures
            final(self)@ == old(self)@.update(i as int, value),
    {
        self.buf[i] = value;
    }

    /// Number of samples in a chunk.
    pub fn size() -> (n: usize)
        ensures
            n == N_SAMPLES_PER_CHUNK,
    {
        N_SAMPLES_PER_CHUNK
    }

    /// A chunk holding the same samples as `self`.
    pub fn clone_buffer(&self) -> (out: Buffer<T>)
        ensures
            out@ == self@,
    {
        let mut out = Buffer { buf: [self.buf[0]; 32] };
        let mut i: usize = 0;
        while i < N_SAMPLES_PER_CHUNK
            invariant
                i <= N_SAMPLES_PER_CHUNK,
                out@.len() == N_SAMPLES_PER_CHUNK,
                self@.len() == N_SAMPLES_PER_CHUNK,
                forall|j: int| 0 <= j < i ==> out@[j] == self@[j],
            decreases N_SAMPLES_PER_CHUNK - i,
        {
            out.buf[i] = self.buf[i];
            i = i + 1;
        }
        proof {
            assert(out@ =~= self@);
        }
        out
    }
}

/// A pair of chunks, left channel first, with every sample equal to `value`.
pub fn stereo_buffer<T: Copy>(value: T) -> (pair: [Buffer<T>; 2])
    ensures
        pair[0]@.len() == N_SAMPLES_PER_CHUNK,
        pair[1]@.len() == N_SAMPLES_PER_CHUNK,
        forall|i: int| 0 <= i < N_SAMPLES_PER_CHUNK ==> pair[0]@[i] == value && pair[1]@[i] == value,
{
    [Buffer::with_value(value), Buffer::with_value(value)]
}

} // verus!
