//! The run's stages, from start to a terminal state, and its exit status.
use crate::error::PipelineError;
use vstd::prelude::*;

verus! {

/// Stage of a run. `Done` and `Failed` are terminal.
#[derive(Debug, Clone, Copy, PartialEq, Eq, Structural)]
pub enum Stage {
    Init,
    SessionOpen,
    Ready,
    Capturing,
    Assembling,
    Done,
    Failed { error: PipelineError },
}

/// The stage after `s` once its work ended with `outcome`: success moves one
/// stage on, any failure goes to `Failed`, and a terminal stage stays.
pub open spec fn stage_after(s: Stage, outcome: Result<(), PipelineError>) -> Stage {
    match s {
        Stage::Done => Stage::Done,
        Stage::Failed { error } => Stage::Failed { error },
        _ => match outcome {
            Err(e) => Stage::Failed { error: e },
            Ok(()) => match s {
                Stage::Init => Stage::SessionOpen,
                Stage::SessionOpen => Stage::Ready,
                Stage::Ready => Stage::Capturing,
                Stage::Capturing => Stage::Assembling,
                _ => Stage::Done,
            },
        },
    }
}

/// Whether a stage is terminal.
pub open spec fn is_terminal(s: Stage) -> bool {
    s is Done || s is Failed
}

/// The stage after `s` once its work ended with `outcome`.
pub fn next_stage(s: Stage, outcome: Result<(), PipelineError>) -> (r: Stage)
    ensures
        r == stage_after(s, outcome),
{
    match s {
        Stage::Done => Stage::Done,
        Stage::Failed { error } => Stage::Failed { error },
        _ => match outcome {
            Err(e) => Stage::Failed { error: e },
            Ok(()) => match s {
                Stage::Init => Stage::SessionOpen,
                Stage::SessionOpen => Stage::Ready,
                Stage::Ready => Stage::Capturing,
                Stage::Capturing => Stage::Assembling,
                _ => Stage::Done,
            },
        },
    }
}

/// Five successful stages in a row take a run from `Init` to `Done`, and a
/// failure at any stage before that ends it in `Failed` with that error.
pub proof fn lemma_stages_linear(e: PipelineError)
    ensures
        stage_after(stage_after(stage_after(stage_after(stage_after(Stage::Init, Ok(())), Ok(())), Ok(())), Ok(())), Ok(()))
            == Stage::Done,
        forall|s: Stage| !is_terminal(s) ==> #[trigger] stage_after(s, Err(e)) == (Stage::Failed { error: e }),
        forall|s: Stage, o: Result<(), PipelineError>| is_terminal(s) ==> #[trigger] stage_after(s, o) == s,
{
}

/// Process exit status for a finished run: 0 on success, 255 on any failure.
pub fn exit_code(result: &Result<(), PipelineError>) -> (r: i32)
    ensures
        result is Ok ==> r == 0,
        result is Err ==> r == 255,
{
    match result {
        Ok(_) => 0,
        Err(_) => 255,
    }
}

} // verus!
