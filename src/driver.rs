use vstd::prelude::*;
use vstd::string::StringSliceAdditionalSpecFns;
use crate::completion::{Completion, Phase};
use crate::native::{NativeCall, Step, has_nul};
use crate::session::LlamaModel;

verus! {

/// Serves one request per input line on a session it owns, in the order the
/// lines come, and destroys the session at the end of the input.
#[derive(Debug)]
pub struct LineDriver {
    model: LlamaModel,
}

impl LineDriver {
    /// The session's handle.
    pub closed spec fn handle(self) -> u64 {
        self.model.handle()
    }

    pub open spec fn wf(self) -> bool {
        self.handle() != 0
    }

    pub fn new(model: LlamaModel) -> (r: LineDriver)
        requires
            model.wf(),
        ensures
            r.wf(),
            r.handle() == model.handle(),
    {
        LineDriver { model }
    }

    /// Takes one input line. An empty line is skipped without touching the
    /// session; any other line starts a completion of it on the session.
    pub fn on_line(&self, line: &str) -> (r: Option<(Completion, Step<String>)>)
        requires
            self.wf(),
        ensures
            line@.len() == 0 <==> r is None,
            r matches Some(p) ==> {
                &&& p.0.wf()
                &&& p.0.handle() == self.handle()
                &&& p.0.request()@ == line@
                &&& p.1 == p.0.due()
                &&& p.0.allocated().len() == 0
                &&& !has_nul(line.spec_bytes()) ==> p.0.phase() == Phase::Parsing
            },
    {
        if line.is_empty() {
            None
        } else {
            Some(self.model.complete(line))
        }
    }

    /// The end of the input: destroys the session.
    pub fn finish(self) -> (r: NativeCall)
        ensures
            r == (NativeCall::FreeLlama { handle: self.handle() }),
    {
        self.model.destroy()
    }
}

} // verus!
