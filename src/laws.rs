use vstd::prelude::*;
use crate::completion::{Completion, Phase};
use crate::error::LlamaError;
use crate::native::{Buffer, NativeCall, NativeReply, Step};
use crate::session::{LlamaModel, create_begins};
use crate::single::{RunPhase, SingleRun};

verus! {

broadcast use vstd::multiset::group_multiset_axioms;

/// A context size that is not positive fails creation with
/// `InvalidContextSize`, and no native call is asked for.
pub proof fn lemma_invalid_context_size(model_path: &str, n_ctx: i32, r: Step<LlamaModel>)
    requires
        n_ctx <= 0,
        create_begins(model_path, n_ctx, r),
    ensures
        r matches Step::Done(Err(LlamaError::InvalidContextSize)),
        !(r is Call),
{
}

/// When the engine cannot load the model, the run fails with
/// `ModelInitFailed` and nothing is left to destroy.
pub proof fn lemma_failed_init_leaves_nothing(run: SingleRun, next: SingleRun)
    requires
        run.wf(),
        run.phase() == RunPhase::Creating,
        SingleRun::takes_in(run, NativeReply::Created { handle: 0 }, next),
        next.wf(),
    ensures
        next.phase() == RunPhase::Finished,
        next.due() == Step::<String>::Done(Err(LlamaError::ModelInitFailed)),
        !next.created(),
        next.destroyed() == 0,
{
}

/// A request the parser rejects fails with `ParseJsonFailed` at once, and
/// no buffer was handed over.
pub proof fn lemma_malformed_request(c: Completion, status: i32, prompt: bool, next: Completion)
    requires
        c.wf(),
        c.phase() == Phase::Parsing,
        status != 0,
        Completion::takes_in(c, NativeReply::Parsed { status, prompt }, next),
        next.wf(),
    ensures
        next.due() == Step::<String>::Done(Err(LlamaError::ParseJsonFailed)),
        next.allocated().len() == 0,
        next.released().len() == 0,
{
}

/// A completion asks for the release of a buffer only while it owns that
/// buffer, so no buffer is released twice.
pub proof fn lemma_release_only_owned(c: Completion, b: Buffer)
    requires
        c.wf(),
        c.due() == Step::<String>::Call(NativeCall::Free { buffer: b }),
    ensures
        c.owns(b),
        c.allocated().count(b) == 1,
        c.released().count(b) == 0,
{
}

/// A request reaches the engine's parser unchanged, so two equal requests
/// are handed to the engine alike and whatever the engine makes of a seed
/// is passed through.
pub proof fn lemma_request_passed_through(c: Completion, d: Completion)
    requires
        c.wf(),
        d.wf(),
        c.phase() == Phase::Parsing,
        d.phase() == Phase::Parsing,
        c.request() == d.request(),
    ensures
        c.due() == Step::<String>::Call(NativeCall::Parse { request_json: c.request() }),
        c.due() == d.due(),
{
}

/// A finished completion has released every buffer the engine handed it
/// exactly once: nothing leaked and nothing released twice.
pub proof fn lemma_finished_completion_released_all(c: Completion)
    requires
        c.wf(),
        c.phase() == Phase::Finished,
    ensures
        c.released() =~= c.allocated(),
        forall|b: Buffer| #[trigger] c.allocated().count(b) <= 1,
{
    assert forall|b: Buffer| #[trigger] c.allocated().count(b) == c.released().count(b)
        && c.allocated().count(b) <= 1 by {
        match b {
            Buffer::Prompt => {},
            Buffer::Text => {},
            Buffer::Tokens => {},
            Buffer::Response => {},
        }
    }
}

/// A finished single run has destroyed its model handle exactly once if the
/// engine created one and never otherwise, and its completion, if one ran,
/// released every buffer exactly once.
pub proof fn lemma_finished_run_released_all(run: SingleRun)
    requires
        run.wf(),
        run.phase() == RunPhase::Finished,
    ensures
        run.destroyed() == (if run.created() { 1nat } else { 0nat }),
        run.completion() matches Some(c) ==> c.released() =~= c.allocated(),
{
    if let Some(c) = run.completion() {
        lemma_finished_completion_released_all(c);
    }
}

} // verus!
