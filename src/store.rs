//! The ordered sequence of captured frames of one run.
use crate::error::PipelineError;
use vstd::prelude::*;

verus! {

/// Frames in capture order; frame `i` is the one appended with index `i`, and
/// each index is written once.
pub struct RasterSequence<F> {
    frames: Vec<F>,
}

impl<F> View for RasterSequence<F> {
    type V = Seq<F>;

    closed spec fn view(&self) -> Seq<F> {
        self.frames@
    }
}

impl<F> RasterSequence<F> {
    /// An empty sequence.
    pub fn new() -> (r: Self)
        ensures
            r@ == Seq::<F>::empty(),
    {
        RasterSequence { frames: Vec::new() }
    }

    /// Number of frames held.
    pub fn len(&self) -> (r: usize)
        ensures
            r == self@.len(),
    {
        self.frames.len()
    }

    /// Appends `frame` as frame `index`, which must be the next free index;
    /// any other index is refused and leaves the sequence as it was.
    pub fn append(&mut self, index: usize, frame: F) -> (r: Result<(), PipelineError>)
        ensures
            index == old(self)@.len() ==> r is Ok && final(self)@ == old(self)@.push(frame),
            index != old(self)@.len() ==> r == Err::<(), PipelineError>(
                PipelineError::CaptureError { frame: index },
            ) && final(self)@ == old(self)@,
    {
        if index == self.frames.len() {
            self.frames.push(frame);
            Ok(())
        } else {
            Err(PipelineError::CaptureError { frame: index })
        }
    }

    /// Frame `i`.
    pub fn get(&self, i: usize) -> (r: &F)
        requires
            i < self@.len(),
        ensures
            *r == self@[i as int],
    {
        &self.frames[i]
    }

    /// All frames, in index order.
    pub fn into_frames(self) -> (r: Vec<F>)
        ensures
            r@ == self@,
    {
        self.frames
    }
}

} // verus!
