use vstd::prelude::*;
use vstd::string::StringSliceAdditionalSpecFns;
use crate::completion::{Completion, Phase};
use crate::error::LlamaError;
use crate::native::{NativeCall, Step, contains_nul, has_nul, nul_error, nul_error_value};

verus! {

/// A live native model handle: the address the engine returned, never zero.
///
/// It is neither `Copy` nor `Clone`, so exactly one session owns it.
#[derive(Debug)]
pub struct LlamaState {
    handle: u64,
}

impl LlamaState {
    pub closed spec fn handle(self) -> u64 {
        self.handle
    }
}

/// A loaded model ready to serve completions. It owns its handle, and
/// `destroy`, which consumes it, is the one way to release that handle.
#[derive(Debug)]
pub struct LlamaModel {
    state: LlamaState,
}

/// How creation with these arguments begins: the arguments are checked
/// before any native call.
pub open spec fn create_begins(model_path: &str, n_ctx: i32, r: Step<LlamaModel>) -> bool {
    if n_ctx <= 0 {
        r == Step::<LlamaModel>::Done(Err(LlamaError::InvalidContextSize))
    } else if has_nul(model_path.spec_bytes()) {
        r matches Step::Done(Err(e)) && nul_error(e)
    } else {
        r matches Step::Call(NativeCall::MakeLlama { model_path: p, n_ctx: n }) && p@
            == model_path@ && n == n_ctx
    }
}

impl LlamaModel {
    /// The address of the handle the session owns.
    pub closed spec fn handle(self) -> u64 {
        self.state.handle()
    }

    pub open spec fn wf(self) -> bool {
        self.handle() != 0
    }

    /// Begins creating a session: a context size that is not positive gives
    /// `InvalidContextSize` and a path holding a nul byte gives `Other`, in
    /// both cases without a native call; otherwise the engine is asked to
    /// load the model, and its reply goes to `from_handle`.
    pub fn new(model_path: &str, n_ctx: i32) -> (r: Step<LlamaModel>)
        ensures
            create_begins(model_path, n_ctx, r),
    {
        if n_ctx <= 0 {
            return Step::Done(Err(LlamaError::InvalidContextSize));
        }
        if contains_nul(model_path) {
            return Step::Done(Err(nul_error_value()));
        }
        Step::Call(NativeCall::MakeLlama { model_path: model_path.to_owned(), n_ctx })
    }

    /// Takes the handle the engine returned from creation: a null handle
    /// gives `ModelInitFailed` and no session, so nothing is left to
    /// destroy.
    pub fn from_handle(handle: u64) -> (r: Result<LlamaModel, LlamaError>)
        ensures
            handle == 0 <==> r == Err::<LlamaModel, LlamaError>(LlamaError::ModelInitFailed),
            handle != 0 ==> (r matches Ok(m) && m.wf() && m.handle() == handle),
    {
        if handle == 0 {
            Err(LlamaError::ModelInitFailed)
        } else {
            Ok(LlamaModel { state: LlamaState { handle } })
        }
    }

    /// The address of the handle, for the native calls.
    pub fn handle_addr(&self) -> (r: u64)
        ensures
            r == self.handle(),
    {
        self.state.handle
    }

    /// Starts a completion of `request_json` on this session. The session
    /// itself is not changed, whatever the completion's outcome.
    pub fn complete(&self, request_json: &str) -> (res: (Completion, Step<String>))
        requires
            self.wf(),
        ensures
            res.0.wf(),
            res.0.handle() == self.handle(),
            res.1 == res.0.due(),
            res.0.allocated().len() == 0,
            has_nul(request_json.spec_bytes()) ==> res.0.phase() == Phase::Finished
                && (res.0.outcome() matches Some(Err(e)) && nul_error(e)),
            !has_nul(request_json.spec_bytes()) ==> res.0.phase() == Phase::Parsing,
            res.0.request()@ == request_json@,
    {
        Completion::start(self.state.handle, request_json)
    }

    /// Destroys the session: the one call that releases its handle.
    pub fn destroy(self) -> (r: NativeCall)
        ensures
            r == (NativeCall::FreeLlama { handle: self.handle() }),
    {
        NativeCall::FreeLlama { handle: self.state.handle }
    }
}

} // verus!
