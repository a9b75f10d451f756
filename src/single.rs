use vstd::prelude::*;
use vstd::string::StringSliceAdditionalSpecFns;
use crate::completion::{Completion, Phase};
use crate::error::LlamaError;
use crate::native::{NativeCall, NativeReply, Step, has_nul, nul_error};
use crate::session::{LlamaModel, create_begins};

verus! {

/// Where a single run stands.
#[derive(Debug, Clone, Copy, PartialEq, Eq, Structural)]
pub enum RunPhase {
    /// Waiting for the engine to create the model.
    Creating,
    /// The completion is under way.
    Running,
    /// Waiting for the model handle to be destroyed.
    Destroying,
    /// The outcome has been handed out.
    Finished,
}

/// One request on a model of its own: create the session, run one
/// completion, destroy the session, hand out the completion's outcome.
pub struct SingleRun {
    phase: RunPhase,
    request: String,
    model: Option<LlamaModel>,
    completion: Option<Completion>,
    outcome: Option<Result<String, LlamaError>>,
    creation: Ghost<NativeCall>,
    handle: Ghost<u64>,
    created: Ghost<bool>,
    destroyed: Ghost<nat>,
    decided: Ghost<Option<Result<String, LlamaError>>>,
}

impl SingleRun {
    pub closed spec fn phase(self) -> RunPhase {
        self.phase
    }

    /// The request text the completion is given.
    pub closed spec fn request(self) -> Seq<char> {
        self.request@
    }

    /// The call that asks the engine to create the model.
    pub closed spec fn creation(self) -> NativeCall {
        self.creation@
    }

    /// The handle the engine created, once it did.
    pub closed spec fn handle(self) -> u64 {
        self.handle@
    }

    /// Whether the engine created a model handle.
    pub closed spec fn created(self) -> bool {
        self.created@
    }

    /// How many times the handle has been destroyed.
    pub closed spec fn destroyed(self) -> nat {
        self.destroyed@
    }

    /// The completion, once it has started.
    pub closed spec fn completion(self) -> Option<Completion> {
        self.completion
    }

    /// The outcome, once it is decided.
    pub closed spec fn outcome(self) -> Option<Result<String, LlamaError>> {
        self.decided@
    }

    /// The private parts agree with the public view.
    pub closed spec fn inner_ok(self) -> bool {
        &&& self.phase != RunPhase::Finished ==> self.outcome == self.decided@
        &&& match self.phase {
            RunPhase::Creating => self.model is None,
            RunPhase::Running => self.model matches Some(m) && m.wf() && m.handle()
                == self.handle@,
            _ => self.model is None,
        }
    }

    pub open spec fn wf(self) -> bool {
        &&& self.inner_ok()
        &&& match self.phase() {
            RunPhase::Creating => {
                &&& !self.created()
                &&& self.destroyed() == 0
                &&& self.completion() is None
                &&& self.outcome() is None
            },
            RunPhase::Running => {
                &&& self.created()
                &&& self.destroyed() == 0
                &&& self.outcome() is None
                &&& (self.completion() matches Some(c) && c.wf() && c.phase() != Phase::Finished
                    && c.handle() == self.handle())
            },
            RunPhase::Destroying => {
                &&& self.created()
                &&& self.destroyed() == 0
                &&& self.outcome() is Some
                &&& (self.completion() matches Some(c) ==> c.wf() && c.phase() == Phase::Finished)
            },
            RunPhase::Finished => {
                &&& self.destroyed() == (if self.created() { 1nat } else { 0nat })
                &&& self.outcome() is Some
                &&& (self.completion() matches Some(c) ==> c.wf() && c.phase() == Phase::Finished)
            },
        }
    }

    /// What the run asks for in its phase.
    pub open spec fn due(self) -> Step<String> {
        match self.phase() {
            RunPhase::Creating => Step::Call(self.creation()),
            RunPhase::Running => self.completion().unwrap().due(),
            RunPhase::Destroying => Step::Call(NativeCall::FreeLlama { handle: self.handle() }),
            RunPhase::Finished => Step::Done(self.outcome().unwrap()),
        }
    }

    /// The reply that the run waits for in its phase.
    pub open spec fn accepts(self, reply: NativeReply) -> bool {
        match self.phase() {
            RunPhase::Creating => reply is Created,
            RunPhase::Running => self.completion().unwrap().accepts(reply),
            RunPhase::Destroying => reply is Freed,
            RunPhase::Finished => false,
        }
    }

    /// Steps left at most before the run finishes.
    pub open spec fn rank(self) -> nat {
        match self.phase() {
            RunPhase::Creating => 11,
            RunPhase::Running => 2 + self.completion().unwrap().rank(),
            RunPhase::Destroying => 1,
            RunPhase::Finished => 0,
        }
    }
    /// How a reply moves the run on.
    pub open spec fn takes_in(old: SingleRun, reply: NativeReply, new: SingleRun) -> bool {
        &&& new.request() == old.request()
        &&& match old.phase() {
            RunPhase::Creating => reply matches NativeReply::Created { handle } && if handle == 0 {
                &&& new.phase() == RunPhase::Finished
                &&& !new.created()
                &&& new.outcome() == Some(Err::<String, LlamaError>(LlamaError::ModelInitFailed))
            } else {
                &&& new.created()
                &&& new.handle() == handle
                &&& new.completion() matches Some(c)
                &&& c.request()@ == old.request()
                &&& c.allocated().len() == 0
                &&& if c.phase() == Phase::Finished {
                    new.phase() == RunPhase::Destroying && new.outcome() == c.outcome()
                } else {
                    new.phase() == RunPhase::Running && c.phase() == Phase::Parsing
                }
            },
            RunPhase::Running => {
                &&& new.created()
                &&& new.handle() == old.handle()
                &&& new.completion() matches Some(c)
                &&& Completion::takes_in(old.completion().unwrap(), reply, c)
                &&& if c.phase() == Phase::Finished {
                    new.phase() == RunPhase::Destroying && new.outcome() == c.outcome()
                } else {
                    new.phase() == RunPhase::Running
                }
            },
            RunPhase::Destroying => {
                &&& new.phase() == RunPhase::Finished
                &&& new.created() == old.created()
                &&& new.destroyed() == old.destroyed() + 1
                &&& new.outcome() == old.outcome()
                &&& new.completion() == old.completion()
            },
            RunPhase::Finished => false,
        }
    }

    /// Takes in the reply to the call last asked for and says what comes
    /// next.
    pub fn step(&mut self, reply: NativeReply) -> (r: Step<String>)
        requires
            old(self).wf(),
            old(self).accepts(reply),
        ensures
            final(self).wf(),
            Self::takes_in(*old(self), reply, *final(self)),
            r == final(self).due(),
            final(self).rank() < old(self).rank(),
    {
        match self.phase {
            RunPhase::Creating => {
                let handle = match reply {
                    NativeReply::Created { handle } => handle,
                    _ => 0,
                };
                match LlamaModel::from_handle(handle) {
                    Err(e) => {
                        self.phase = RunPhase::Finished;
                        self.decided = Ghost(Some(Err(e)));
                        Step::Done(Err(e))
                    },
                    Ok(m) => {
                        self.created = Ghost(true);
                        self.handle = Ghost(handle);
                        let (c, first) = m.complete(self.request.as_str());
                        self.completion = Some(c);
                        match first {
                            Step::Done(o) => {
                                let call = m.destroy();
                                self.decided = Ghost(Some(o));
                                self.outcome = Some(o);
                                self.phase = RunPhase::Destroying;
                                Step::Call(call)
                            },
                            Step::Call(call) => {
                                self.model = Some(m);
                                self.phase = RunPhase::Running;
                                Step::Call(call)
                            },
                        }
                    },
                }
            },
            RunPhase::Running => {
                let mut c = self.completion.take().unwrap();
                let s = c.step(reply);
                self.completion = Some(c);
                match s {
                    Step::Call(call) => Step::Call(call),
                    Step::Done(o) => {
                        let m = self.model.take().unwrap();
                        let call = m.destroy();
                        self.decided = Ghost(Some(o));
                        self.outcome = Some(o);
                        self.phase = RunPhase::Destroying;
                        Step::Call(call)
                    },
                }
            },
            RunPhase::Destroying => {
                self.destroyed = Ghost(self.destroyed@ + 1);
                self.phase = RunPhase::Finished;
                Step::Done(self.outcome.take().unwrap())
            },
            // `accepts` rules out every reply once the run has finished.
            RunPhase::Finished => Step::Done(Err(LlamaError::ModelInitFailed)),
        }
    }

    /// Whether the outcome has been handed out.
    pub fn is_finished(&self) -> (r: bool)
        ensures
            r == (self.phase() == RunPhase::Finished),
    {
        self.phase == RunPhase::Finished
    }

    /// Whether `reply` is the one the run waits for.
    pub fn is_expected(&self, reply: &NativeReply) -> (r: bool)
        requires
            self.wf(),
        ensures
            r == self.accepts(*reply),
    {
        match self.phase {
            RunPhase::Creating => matches!(reply, NativeReply::Created { .. }),
            RunPhase::Running => match &self.completion {
                Some(c) => c.is_expected(reply),
                None => false,
            },
            RunPhase::Destroying => matches!(reply, NativeReply::Freed),
            RunPhase::Finished => false,
        }
    }
}

/// Runs one request on a model of its own: a context size that is not
/// positive gives `InvalidContextSize` and a model path holding a nul byte
/// gives `Other`, both before any native call; otherwise the engine is asked
/// to create the model, and the run goes on through `SingleRun::step`.
pub fn complete(request_json: &str, model_path: &str, n_ctx: i32) -> (res: (SingleRun, Step<String>))
    ensures
        res.0.wf(),
        res.0.request() == request_json@,
        res.1 == res.0.due(),
        n_ctx <= 0 ==> res.1 == Step::<String>::Done(Err(LlamaError::InvalidContextSize)),
        n_ctx > 0 && has_nul(model_path.spec_bytes()) ==> (res.1 matches Step::Done(Err(e))
            && nul_error(e)),
        res.1 is Done ==> res.0.phase() == RunPhase::Finished && !res.0.created(),
        n_ctx > 0 && !has_nul(model_path.spec_bytes()) ==> res.0.phase() == RunPhase::Creating
            && (res.0.creation() matches NativeCall::MakeLlama { model_path: p, n_ctx: n }
            && p@ == model_path@ && n == n_ctx),
{
    let begun = LlamaModel::new(model_path, n_ctx);
    let request = request_json.to_owned();
    match begun {
        Step::Call(call) => {
            let run = SingleRun {
                phase: RunPhase::Creating,
                request,
                model: None,
                completion: None,
                outcome: None,
                creation: Ghost(call),
                handle: Ghost(0),
                created: Ghost(false),
                destroyed: Ghost(0),
                decided: Ghost(None),
            };
            (run, Step::Call(call))
        },
        Step::Done(r) => {
            let e = match r {
                Err(e) => e,
                // `LlamaModel::new` never finishes with a session.
                Ok(_) => LlamaError::ModelInitFailed,
            };
            let run = SingleRun {
                phase: RunPhase::Finished,
                request,
                model: None,
                completion: None,
                outcome: None,
                creation: Ghost(arbitrary()),
                handle: Ghost(0),
                created: Ghost(false),
                destroyed: Ghost(0),
                decided: Ghost(Some(Err(e))),
            };
            (run, Step::Done(Err(e)))
        },
    }
}

} // verus!
