//! Decisions of the slide capture loop: capture the current slide, then
//! advance while a "next" control exists.
use crate::error::PipelineError;
use crate::store::RasterSequence;
use vstd::prelude::*;

verus! {

/// What the driver does after a slide was captured.
#[derive(Debug, Clone, Copy, PartialEq, Eq, Structural)]
pub enum SlideAction {
    /// Click "next", then pause for the settle duration and capture again.
    AdvanceAndSettle,
    /// The last slide was captured: stop.
    Finish,
}

/// The action owed once the lookup of the "next" control has answered.
pub open spec fn next_action(found: bool) -> SlideAction {
    if found {
        SlideAction::AdvanceAndSettle
    } else {
        SlideAction::Finish
    }
}

/// State of the capture loop: the frames captured so far and whether the loop
/// has ended.
pub struct SlideEnumerator<F> {
    frames: RasterSequence<F>,
    finished: bool,
}

impl<F> SlideEnumerator<F> {
    /// Frames captured so far, in slide order.
    pub closed spec fn captured(&self) -> Seq<F> {
        self.frames@
    }

    /// Whether the loop has ended.
    pub closed spec fn is_finished(&self) -> bool {
        self.finished
    }

    /// A loop that has captured nothing yet.
    pub fn new() -> (r: Self)
        ensures
            r.captured() == Seq::<F>::empty(),
            !r.is_finished(),
    {
        SlideEnumerator { frames: RasterSequence::new(), finished: false }
    }

    /// Index that the next screenshot will get.
    pub fn next_index(&self) -> (r: usize)
        ensures
            r == self.captured().len(),
    {
        self.frames.len()
    }

    /// Whether the loop has ended.
    pub fn finished(&self) -> (r: bool)
        ensures
            r == self.is_finished(),
    {
        self.finished
    }

    /// Records the screenshot of the current slide, or its failure, which is
    /// fatal: the frame then carries the index it would have had.
    pub fn on_screenshot(&mut self, shot: Option<F>) -> (r: Result<usize, PipelineError>)
        requires
            !old(self).is_finished(),
        ensures
            final(self).is_finished() == old(self).is_finished(),
            match shot {
                Some(f) => r == Ok::<usize, PipelineError>(old(self).captured().len() as usize)
                    && final(self).captured() == old(self).captured().push(f),
                None => r == Err::<usize, PipelineError>(
                    PipelineError::CaptureError { frame: old(self).captured().len() as usize },
                ) && final(self).captured() == old(self).captured(),
            },
    {
        let n = self.frames.len();
        match shot {
            Some(f) => {
                let _ = self.frames.append(n, f);
                Ok(n)
            },
            None => Err(PipelineError::CaptureError { frame: n }),
        }
    }

    /// Decides, from whether a "next" control was found after the last
    /// capture, to advance or to stop; not finding one ends the loop.
    pub fn on_next_lookup(&mut self, found: bool) -> (r: SlideAction)
        ensures
            r == next_action(found),
            final(self).captured() == old(self).captured(),
            final(self).is_finished() == !found,
    {
        self.finished = !found;
        if found {
            SlideAction::AdvanceAndSettle
        } else {
            SlideAction::Finish
        }
    }

    /// A failed click on "next" is fatal; it is charged to the frame that was
    /// captured last.
    pub fn on_click(&self, clicked: bool) -> (r: Result<(), PipelineError>)
        requires
            self.captured().len() > 0,
        ensures
            clicked ==> r is Ok,
            !clicked ==> r == Err::<(), PipelineError>(
                PipelineError::CaptureError { frame: (self.captured().len() - 1) as usize },
            ),
    {
        if clicked {
            Ok(())
        } else {
            Err(PipelineError::CaptureError { frame: self.frames.len() - 1 })
        }
    }

    /// The captured frames, in slide order.
    pub fn into_frames(self) -> (r: RasterSequence<F>)
        ensures
            r@ == self.captured(),
    {
        self.frames
    }
}

/// The frames that the loop captures from a presentation whose slides are
/// `slides`, having captured `captured` so far: it captures the current slide,
/// finds a "next" control while a slide follows, and advances.
pub open spec fn simulated_capture<F>(slides: Seq<F>, captured: Seq<F>) -> Seq<F>
    decreases slides.len() - captured.len(),
{
    if captured.len() >= slides.len() {
        captured
    } else {
        let now = captured.push(slides[captured.len() as int]);
        match next_action(now.len() < slides.len()) {
            SlideAction::AdvanceAndSettle => simulated_capture(slides, now),
            SlideAction::Finish => now,
        }
    }
}

/// With the "next" control found after each of the first N - 1 captures of N
/// slides, the loop ends after exactly N captures, holding each slide once,
/// in order.
pub proof fn lemma_capture_ends_after_each_slide<F>(slides: Seq<F>)
    requires
        slides.len() > 0,
    ensures
        simulated_capture(slides, Seq::<F>::empty()) == slides,
{
    assert(Seq::<F>::empty() =~= slides.subrange(0, 0));
    lemma_capture_from(slides, Seq::<F>::empty());
}

proof fn lemma_capture_from<F>(slides: Seq<F>, captured: Seq<F>)
    requires
        captured.len() <= slides.len(),
        captured == slides.subrange(0, captured.len() as int),
    ensures
        simulated_capture(slides, captured) == slides,
    decreases slides.len() - captured.len(),
{
    if captured.len() >= slides.len() {
        assert(captured =~= slides);
    } else {
        let now = captured.push(slides[captured.len() as int]);
        assert(now =~= slides.subrange(0, now.len() as int));
        if now.len() < slides.len() {
            lemma_capture_from(slides, now);
        } else {
            assert(now =~= slides);
        }
    }
}

} // verus!
