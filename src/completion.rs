use vstd::prelude::*;
use vstd::multiset::Multiset;
use vstd::string::StringSliceAdditionalSpecFns;
use crate::error::LlamaError;
use crate::native::{
    Buffer, NativeCall, NativeReply, Step, contains_nul, decode_response, decoded, has_nul,
    nul_error, nul_error_value,
};

verus! {

broadcast use vstd::multiset::group_multiset_axioms;

/// Where one completion stands.
#[derive(Debug, Clone, Copy, PartialEq, Eq, Structural)]
pub enum Phase {
    /// Waiting for the parser's reply.
    Parsing,
    /// Waiting for the engine's reply.
    Completing,
    /// Waiting for the serializer's reply.
    Serializing,
    /// Waiting for the release of the buffer.
    Releasing(Buffer),
    /// The outcome has been handed out; nothing is owned.
    Finished,
}

/// The order in which buffers are released.
pub open spec fn release_order(b: Buffer) -> nat {
    match b {
        Buffer::Prompt => 0,
        Buffer::Response => 1,
        Buffer::Text => 2,
        Buffer::Tokens => 3,
    }
}

/// `m` with `b` added when `cond` holds.
pub open spec fn add_if(m: Multiset<Buffer>, cond: bool, b: Buffer) -> Multiset<Buffer> {
    if cond {
        m.insert(b)
    } else {
        m
    }
}

/// One request driven through the engine: parse, complete, serialize, and
/// the release of every buffer that the engine handed over.
///
/// The ledger counts each buffer when the engine allocates it and when it is
/// released; the machine asks for a release only of a buffer that it owns and
/// finishes only once every allocated buffer has been released.
pub struct Completion {
    phase: Phase,
    handle: u64,
    prompt: bool,
    text: bool,
    tokens: bool,
    response: bool,
    outcome: Option<Result<String, LlamaError>>,
    request: Ghost<String>,
    decided: Ghost<Option<Result<String, LlamaError>>>,
    allocated: Ghost<Multiset<Buffer>>,
    released: Ghost<Multiset<Buffer>>,
}

impl Completion {
    pub closed spec fn phase(self) -> Phase {
        self.phase
    }

    /// The model handle the completion runs on.
    pub closed spec fn handle(self) -> u64 {
        self.handle
    }

    /// The request text handed to the parser.
    pub closed spec fn request(self) -> String {
        self.request@
    }

    /// Whether the buffer is allocated and not yet released.
    pub closed spec fn owns(self, b: Buffer) -> bool {
        match b {
            Buffer::Prompt => self.prompt,
            Buffer::Text => self.text,
            Buffer::Tokens => self.tokens,
            Buffer::Response => self.response,
        }
    }

    /// The outcome, once it is decided.
    pub closed spec fn outcome(self) -> Option<Result<String, LlamaError>> {
        self.decided@
    }

    /// Every buffer the engine has allocated for this completion.
    pub closed spec fn allocated(self) -> Multiset<Buffer> {
        self.allocated@
    }

    /// Every release carried out for this completion.
    pub closed spec fn released(self) -> Multiset<Buffer> {
        self.released@
    }

    /// The outcome held for handing out agrees with the ledger's record.
    pub closed spec fn mirrors(self) -> bool {
        self.phase != Phase::Finished ==> self.outcome == self.decided@
    }

    /// The buffer is allocated at most once and released at most as often as
    /// it was allocated; it is owned exactly while it is allocated and not
    /// released.
    pub open spec fn entry_ok(self, b: Buffer) -> bool {
        &&& self.allocated().count(b) <= 1
        &&& self.released().count(b) <= self.allocated().count(b)
        &&& self.owns(b) <==> self.allocated().count(b) > self.released().count(b)
    }

    /// Every buffer's entry in the ledger is in order.
    pub open spec fn ledger_ok(self) -> bool {
        &&& self.entry_ok(Buffer::Prompt)
        &&& self.entry_ok(Buffer::Text)
        &&& self.entry_ok(Buffer::Tokens)
        &&& self.entry_ok(Buffer::Response)
    }

    pub open spec fn settled(self) -> bool {
        &&& self.ledger_ok()
        &&& self.outcome() is None ==> self.allocated().count(Buffer::Response) == 0
    }

    pub open spec fn wf(self) -> bool {
        &&& self.settled()
        &&& self.mirrors()
        &&& match self.phase() {
            Phase::Parsing => {
                &&& self.allocated() =~= Multiset::empty()
                &&& self.released() =~= Multiset::empty()
                &&& self.outcome() is None
            },
            Phase::Completing => {
                &&& self.allocated().count(Buffer::Text) == 0
                &&& self.allocated().count(Buffer::Tokens) == 0
                &&& self.outcome() is None
            },
            Phase::Serializing => !self.owns(Buffer::Prompt) && self.outcome() is None,
            Phase::Releasing(b) => {
                &&& self.owns(b)
                &&& b != Buffer::Prompt ==> self.outcome() is Some
                &&& self.owns_none_before(b)
            },
            Phase::Finished => {
                &&& self.owns_none()
                &&& self.outcome() is Some
            },
        }
    }

    /// No buffer that is released before `b` is still owned.
    pub open spec fn owns_none_before(self, b: Buffer) -> bool {
        &&& release_order(b) > 0 ==> !self.owns(Buffer::Prompt)
        &&& release_order(b) > 1 ==> !self.owns(Buffer::Response)
        &&& release_order(b) > 2 ==> !self.owns(Buffer::Text)
    }

    /// No buffer is owned.
    pub open spec fn owns_none(self) -> bool {
        &&& !self.owns(Buffer::Prompt)
        &&& !self.owns(Buffer::Response)
        &&& !self.owns(Buffer::Text)
        &&& !self.owns(Buffer::Tokens)
    }

    /// The phase that follows once the reply has been taken in: release the
    /// prompt first, then serialize, then release the remaining buffers, then
    /// finish.
    pub open spec fn settle(self) -> Phase {
        if self.owns(Buffer::Prompt) {
            Phase::Releasing(Buffer::Prompt)
        } else if self.outcome() is None {
            Phase::Serializing
        } else if self.owns(Buffer::Response) {
            Phase::Releasing(Buffer::Response)
        } else if self.owns(Buffer::Text) {
            Phase::Releasing(Buffer::Text)
        } else if self.owns(Buffer::Tokens) {
            Phase::Releasing(Buffer::Tokens)
        } else {
            Phase::Finished
        }
    }

    /// What the machine asks for in its phase.
    pub open spec fn due(self) -> Step<String> {
        match self.phase() {
            Phase::Parsing => Step::Call(NativeCall::Parse { request_json: self.request() }),
            Phase::Completing => Step::Call(NativeCall::Complete { handle: self.handle() }),
            Phase::Serializing => Step::Call(NativeCall::Serialize),
            Phase::Releasing(b) => Step::Call(NativeCall::Free { buffer: b }),
            Phase::Finished => Step::Done(self.outcome().unwrap()),
        }
    }

    /// Steps left at most before the machine finishes.
    pub open spec fn rank(self) -> nat {
        match self.phase() {
            Phase::Parsing => 7,
            Phase::Completing => 6,
            Phase::Releasing(Buffer::Prompt) => 5,
            Phase::Serializing => 4,
            Phase::Releasing(Buffer::Response) => 3,
            Phase::Releasing(Buffer::Text) => 2,
            Phase::Releasing(Buffer::Tokens) => 1,
            Phase::Finished => 0,
        }
    }

    /// The reply that the machine waits for in its phase.
    pub open spec fn accepts(self, reply: NativeReply) -> bool {
        match self.phase() {
            Phase::Parsing => reply is Parsed,
            Phase::Completing => reply is Completed,
            Phase::Serializing => reply is Serialized,
            Phase::Releasing(_) => reply is Freed,
            Phase::Finished => false,
        }
    }
    /// How a reply changes the ledger and the outcome, and which phase
    /// follows.
    pub open spec fn takes_in(old: Completion, reply: NativeReply, new: Completion) -> bool {
        &&& new.handle() == old.handle()
        &&& new.request() == old.request()
        &&& match reply {
            NativeReply::Parsed { status, prompt } => {
                &&& new.released() == old.released()
                &&& if status != 0 {
                    &&& new.allocated() == old.allocated()
                    &&& new.outcome() == Some(Err::<String, LlamaError>(LlamaError::ParseJsonFailed))
                    &&& new.phase() == Phase::Finished
                } else {
                    &&& new.allocated() == add_if(old.allocated(), prompt, Buffer::Prompt)
                    &&& new.outcome() is None
                    &&& new.phase() == Phase::Completing
                }
            },
            NativeReply::Completed { status, text, tokens } => {
                &&& new.released() == old.released()
                &&& new.phase() == new.settle()
                &&& if status != 0 {
                    &&& new.allocated() == old.allocated()
                    &&& new.outcome() == Some(Err::<String, LlamaError>(LlamaError::CompletionFailed))
                } else {
                    &&& new.allocated() == add_if(
                        add_if(old.allocated(), text, Buffer::Text),
                        tokens,
                        Buffer::Tokens,
                    )
                    &&& new.outcome() is None
                }
            },
            NativeReply::Serialized { response } => {
                &&& new.released() == old.released()
                &&& new.phase() == new.settle()
                &&& match response {
                    None => {
                        &&& new.allocated() == old.allocated()
                        &&& new.outcome() == Some(Err::<String, LlamaError>(LlamaError::SerializeFailed))
                    },
                    Some(bytes) => {
                        &&& new.allocated() == old.allocated().insert(Buffer::Response)
                        &&& (new.outcome() matches Some(o) && decoded(bytes@, o))
                    },
                }
            },
            NativeReply::Freed => {
                &&& new.allocated() == old.allocated()
                &&& new.outcome() == old.outcome()
                &&& new.phase() == new.settle()
                &&& (old.phase() matches Phase::Releasing(b) && new.released()
                    == old.released().insert(b))
            },
            NativeReply::Created { .. } => false,
        }
    }

    /// Starts a completion of `request_json` on the model behind `handle`.
    /// Text holding a nul byte cannot reach the parser and finishes at once.
    pub fn start(handle: u64, request_json: &str) -> (res: (Completion, Step<String>))
        ensures
            res.0.wf(),
            res.0.handle() == handle,
            res.1 == res.0.due(),
            res.0.allocated() =~= Multiset::<Buffer>::empty(),
            res.0.released() =~= Multiset::<Buffer>::empty(),
            has_nul(request_json.spec_bytes()) ==> res.0.phase() == Phase::Finished
                && (res.0.outcome() matches Some(Err(e)) && nul_error(e)),
            !has_nul(request_json.spec_bytes()) ==> res.0.phase() == Phase::Parsing,
            res.0.request()@ == request_json@,
    {
        let req = request_json.to_owned();
        if contains_nul(request_json) {
            let e = nul_error_value();
            let c = Completion {
                phase: Phase::Finished,
                handle,
                prompt: false,
                text: false,
                tokens: false,
                response: false,
                outcome: None,
                request: Ghost(req),
                decided: Ghost(Some(Err(e))),
                allocated: Ghost(Multiset::empty()),
                released: Ghost(Multiset::empty()),
            };
            (c, Step::Done(Err(e)))
        } else {
            let c = Completion {
                phase: Phase::Parsing,
                handle,
                prompt: false,
                text: false,
                tokens: false,
                response: false,
                outcome: None,
                request: Ghost(req),
                decided: Ghost(None),
                allocated: Ghost(Multiset::empty()),
                released: Ghost(Multiset::empty()),
            };
            (c, Step::Call(NativeCall::Parse { request_json: req }))
        }
    }

    /// Moves to the phase that `settle` names and says what it asks for.
    fn advance(&mut self) -> (r: Step<String>)
        requires
            old(self).settled(),
            old(self).outcome == old(self).decided@,
        ensures
            final(self).wf(),
            final(self).phase() == old(self).settle(),
            r == final(self).due(),
            final(self).handle() == old(self).handle(),
            final(self).request() == old(self).request(),
            final(self).outcome() == old(self).outcome(),
            final(self).allocated() == old(self).allocated(),
            final(self).released() == old(self).released(),
            forall|b: Buffer| final(self).owns(b) == old(self).owns(b),
    {
        if self.prompt {
            self.phase = Phase::Releasing(Buffer::Prompt);
            Step::Call(NativeCall::Free { buffer: Buffer::Prompt })
        } else if self.outcome.is_none() {
            self.phase = Phase::Serializing;
            Step::Call(NativeCall::Serialize)
        } else if self.response {
            self.phase = Phase::Releasing(Buffer::Response);
            Step::Call(NativeCall::Free { buffer: Buffer::Response })
        } else if self.text {
            self.phase = Phase::Releasing(Buffer::Text);
            Step::Call(NativeCall::Free { buffer: Buffer::Text })
        } else if self.tokens {
            self.phase = Phase::Releasing(Buffer::Tokens);
            Step::Call(NativeCall::Free { buffer: Buffer::Tokens })
        } else {
            self.phase = Phase::Finished;
            let o = self.outcome.take();
            Step::Done(o.unwrap())
        }
    }

    /// Takes in the reply to the call last asked for and says what comes
    /// next: another call, or the outcome once every buffer is released.
    pub fn step(&mut self, reply: NativeReply) -> (r: Step<String>)
        requires
            old(self).wf(),
            old(self).accepts(reply),
        ensures
            final(self).wf(),
            Self::takes_in(*old(self), reply, *final(self)),
            r == final(self).due(),
            final(self).rank() < old(self).rank(),
    {
        match reply {
            NativeReply::Parsed { status, prompt } => {
                if status != 0 {
                    self.outcome = Some(Err(LlamaError::ParseJsonFailed));
                    self.decided = Ghost(Some(Err(LlamaError::ParseJsonFailed)));
                    self.advance()
                } else {
                    self.prompt = prompt;
                    self.allocated = Ghost(add_if(self.allocated@, prompt, Buffer::Prompt));
                    self.phase = Phase::Completing;
                    Step::Call(NativeCall::Complete { handle: self.handle })
                }
            },
            NativeReply::Completed { status, text, tokens } => {
                if status != 0 {
                    self.outcome = Some(Err(LlamaError::CompletionFailed));
                    self.decided = Ghost(Some(Err(LlamaError::CompletionFailed)));
                } else {
                    self.text = text;
                    self.tokens = tokens;
                    self.allocated = Ghost(
                        add_if(add_if(self.allocated@, text, Buffer::Text), tokens, Buffer::Tokens),
                    );
                }
                self.advance()
            },
            NativeReply::Serialized { response } => {
                match response {
                    None => {
                        self.outcome = Some(Err(LlamaError::SerializeFailed));
                        self.decided = Ghost(Some(Err(LlamaError::SerializeFailed)));
                    },
                    Some(bytes) => {
                        self.response = true;
                        self.allocated = Ghost(self.allocated@.insert(Buffer::Response));
                        let o = decode_response(&bytes);
                        self.decided = Ghost(Some(o));
                        self.outcome = Some(o);
                    },
                }
                self.advance()
            },
            NativeReply::Freed => {
                let b = match self.phase {
                    Phase::Releasing(b) => b,
                    _ => Buffer::Prompt,
                };
                match b {
                    Buffer::Prompt => self.prompt = false,
                    Buffer::Text => self.text = false,
                    Buffer::Tokens => self.tokens = false,
                    Buffer::Response => self.response = false,
                }
                self.released = Ghost(self.released@.insert(b));
                self.advance()
            },
            // `accepts` rules this reply out in every phase.
            NativeReply::Created { .. } => self.advance(),
        }
    }

    /// Whether `reply` is the one the machine waits for.
    pub fn is_expected(&self, reply: &NativeReply) -> (r: bool)
        ensures
            r == self.accepts(*reply),
    {
        match self.phase {
            Phase::Parsing => matches!(reply, NativeReply::Parsed { .. }),
            Phase::Completing => matches!(reply, NativeReply::Completed { .. }),
            Phase::Serializing => matches!(reply, NativeReply::Serialized { .. }),
            Phase::Releasing(_) => matches!(reply, NativeReply::Freed),
            Phase::Finished => false,
        }
    }

    /// Whether the outcome has been handed out.
    pub fn is_finished(&self) -> (r: bool)
        ensures
            r == (self.phase() == Phase::Finished),
    {
        self.phase == Phase::Finished
    }
}

} // verus!
