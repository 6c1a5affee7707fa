use vstd::prelude::*;

use crate::buffers::{Buffer, N_SAMPLES_PER_CHUNK};

verus! {

broadcast use Buffer::lemma_chunk_len;

/// Hands out the stereo frames of the last received pair of chunks, one at a time,
/// and says when the next pair is needed.
pub struct StereoStream<T> {
    current_idx: usize,
    left: Buffer<T>,
    right: Buffer<T>,
}

/// The frames of a pair of chunks, in order: sample `i` of the left chunk with
/// sample `i` of the right one.
pub open spec fn frames_of<T>(left: Seq<T>, right: Seq<T>) -> Seq<(T, T)> {
    Seq::new(N_SAMPLES_PER_CHUNK as nat, |i: int| (left[i], right[i]))
}

impl<T> StereoStream<T> {
    #[verifier::type_invariant]
    spec fn within_chunk(self) -> bool {
        &&& self.current_idx <= N_SAMPLES_PER_CHUNK
        &&& self.left@.len() == N_SAMPLES_PER_CHUNK
        &&& self.right@.len() == N_SAMPLES_PER_CHUNK
    }

    /// The frames of the current pair of chunks that have not been handed out yet.
    pub closed spec fn pending(&self) -> Seq<(T, T)> {
        frames_of(self.left@, self.right@).skip(self.current_idx as int)
    }
}

impl<T: Copy> StereoStream<T> {
    /// A stream that holds no frame yet: the first pair of chunks is needed before
    /// anything can be played. `silence` fills the empty chunks.
    pub fn new(silence: T) -> (s: StereoStream<T>)
        ensures
            s.pending().len() == 0,
    {
        StereoStream {
            current_idx: N_SAMPLES_PER_CHUNK,
            left: Buffer::with_value(silence),
            right: Buffer::with_value(silence),
        }
    }

    /// Whether every frame of the current chunks has been handed out.
    pub fn needs_chunk(&self) -> (r: bool)
        ensures
            r == (self.pending().len() == 0),
    {
        proof {
            use_type_invariant(self);
        }
        self.current_idx >= N_SAMPLES_PER_CHUNK
    }

    /// Takes a new pair of chunks, whose frames are then handed out from the first.
    pub fn load_chunk(&mut self, chunk: &[Buffer<T>; 2])
        ensures
            final(self).pending() == frames_of(chunk[0]@, chunk[1]@),
            final(self).pending().len() == N_SAMPLES_PER_CHUNK,
            forall|i: int|
                0 <= i < N_SAMPLES_PER_CHUNK ==> #[trigger] final(self).pending()[i] == (
                chunk[0]@[i],
                chunk[1]@[i],
            ),
    {
        proof {
            use_type_invariant(&*self);
        }
        self.left = chunk[0].clone_buffer();
        self.right = chunk[1].clone_buffer();
        self.current_idx = 0;
        proof {
            assert(self.pending() =~= frames_of(chunk[0]@, chunk[1]@));
        }
    }

    /// The next frame, left sample first; `None`, with nothing changed, once every
    /// frame of the current chunks has been handed out.
    pub fn next_frame(&mut self) -> (frame: Option<[T; 2]>)
        ensures
            old(self).pending().len() == 0 ==> frame is None && final(self).pending() == old(self).pending(),
            old(self).pending().len() > 0 ==> {
                &&& frame is Some
                &&& frame->0[0] == old(self).pending()[0].0
                &&& frame->0[1] == old(self).pending()[0].1
                &&& final(self).pending() == old(self).pending().drop_first()
            },
    {
        proof {
            use_type_invariant(&*self);
        }
        if self.current_idx >= N_SAMPLES_PER_CHUNK {
            return None;
        }
        let i = self.current_idx;
        let frame = [self.left.sample(i), self.right.sample(i)];
        self.current_idx = i + 1;
        proof {
            assert(self.pending() =~= old(self).pending().drop_first());
        }
        Some(frame)
    }
}

} // verus!
