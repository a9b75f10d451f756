use llama_session::{
    complete, Buffer, Completion, LineDriver, LlamaError, LlamaModel, NativeCall, NativeReply,
    RunPhase, Step,
};

/// A stand-in for the native engine that records every call and keeps count
/// of the buffers it hands out and gets back.
struct Engine {
    parse_status: i32,
    prompt: bool,
    complete_status: i32,
    text: bool,
    tokens: bool,
    response: Option<Vec<u8>>,
    handle: u64,
    calls: Vec<NativeCall>,
    allocated: Vec<Buffer>,
    released: Vec<Buffer>,
    destroyed: Vec<u64>,
}

impl Engine {
    fn ok(response: &str) -> Engine {
        Engine {
            parse_status: 0,
            prompt: true,
            complete_status: 0,
            text: true,
            tokens: true,
            response: Some(response.as_bytes().to_vec()),
            handle: 0x1000,
            calls: Vec::new(),
            allocated: Vec::new(),
            released: Vec::new(),
            destroyed: Vec::new(),
        }
    }

    fn reply(&mut self, call: NativeCall) -> NativeReply {
        self.calls.push(call.clone());
        match call {
            NativeCall::MakeLlama { .. } => NativeReply::Created { handle: self.handle },
            NativeCall::Parse { .. } => {
                if self.parse_status == 0 && self.prompt {
                    self.allocated.push(Buffer::Prompt);
                }
                NativeReply::Parsed { status: self.parse_status, prompt: self.prompt }
            }
            NativeCall::Complete { .. } => {
                if self.complete_status == 0 {
                    if self.text {
                        self.allocated.push(Buffer::Text);
                    }
                    if self.tokens {
                        self.allocated.push(Buffer::Tokens);
                    }
                }
                NativeReply::Completed {
                    status: self.complete_status,
                    text: self.text,
                    tokens: self.tokens,
                }
            }
            NativeCall::Serialize => {
                if self.response.is_some() {
                    self.allocated.push(Buffer::Response);
                }
                NativeReply::Serialized { response: self.response.clone() }
            }
            NativeCall::Free { buffer } => {
                self.released.push(buffer);
                NativeReply::Freed
            }
            NativeCall::FreeLlama { handle } => {
                self.destroyed.push(handle);
                NativeReply::Freed
            }
        }
    }

    fn balanced(&self) -> bool {
        let mut a = self.allocated.clone();
        let mut r = self.released.clone();
        a.sort_by_key(|b| format!("{:?}", b));
        r.sort_by_key(|b| format!("{:?}", b));
        a == r
    }
}

fn run_completion(
    engine: &mut Engine,
    started: (Completion, Step<String>),
) -> Result<String, LlamaError> {
    let (mut c, mut step) = started;
    loop {
        match step {
            Step::Done(r) => {
                assert!(c.is_finished());
                return r;
            }
            Step::Call(call) => {
                let reply = engine.reply(call);
                assert!(c.is_expected(&reply));
                step = c.step(reply);
            }
        }
    }
}

fn session(engine: &mut Engine) -> LlamaModel {
    match LlamaModel::new("model.gguf", 512) {
        Step::Call(call) => match engine.reply(call) {
            NativeReply::Created { handle } => LlamaModel::from_handle(handle).unwrap(),
            _ => panic!("unexpected reply"),
        },
        Step::Done(_) => panic!("creation refused"),
    }
}

const REQUEST: &str = "{\"prompt\":\"hello\",\"max_tokens\":8,\"temperature\":0.7,\"top_p\":0.9,\"top_k\":40,\"seed\":1,\"include_logits\":false}";

#[test]
fn context_size_not_positive_is_refused_without_native_call() {
    for n in [0, -1, i32::MIN] {
        match LlamaModel::new("model.gguf", n) {
            Step::Done(Err(e)) => assert_eq!(e, LlamaError::InvalidContextSize),
            _ => panic!("expected InvalidContextSize"),
        }
        let (run, step) = complete(REQUEST, "model.gguf", n);
        assert_eq!(step, Step::Done(Err(LlamaError::InvalidContextSize)));
        assert!(run.is_finished());
    }
}

#[test]
fn positive_context_size_asks_the_engine() {
    match LlamaModel::new("model.gguf", 1) {
        Step::Call(call) => assert_eq!(
            call,
            NativeCall::MakeLlama { model_path: "model.gguf".to_string(), n_ctx: 1 }
        ),
        _ => panic!("expected a creation call"),
    }
}

#[test]
fn model_path_with_nul_is_refused() {
    match LlamaModel::new("mo\0del", 8) {
        Step::Done(Err(LlamaError::Other(m))) => assert!(m.contains("nul")),
        _ => panic!("expected Other"),
    }
}

#[test]
fn null_handle_fails_model_init() {
    assert!(matches!(LlamaModel::from_handle(0), Err(LlamaError::ModelInitFailed)));
    let m = LlamaModel::from_handle(42).unwrap();
    assert_eq!(m.handle_addr(), 42);
    assert_eq!(m.destroy(), NativeCall::FreeLlama { handle: 42 });
}

#[test]
fn failed_init_in_single_run_destroys_nothing() {
    let mut engine = Engine::ok("{}");
    engine.handle = 0;
    let (mut run, step) = complete(REQUEST, "missing.gguf", 64);
    let call = match step {
        Step::Call(c) => c,
        Step::Done(_) => panic!("expected a creation call"),
    };
    let reply = engine.reply(call);
    assert!(run.is_expected(&reply));
    assert_eq!(run.step(reply), Step::Done(Err(LlamaError::ModelInitFailed)));
    assert!(run.is_finished());
    assert!(engine.destroyed.is_empty());
}

#[test]
fn malformed_request_fails_and_session_stays_usable() {
    let mut engine = Engine::ok("{\"text\":\" world\"}");
    let model = session(&mut engine);
    engine.parse_status = -1;
    let r = run_completion(&mut engine, model.complete("{not json"));
    assert_eq!(r, Err(LlamaError::ParseJsonFailed));
    assert!(engine.allocated.is_empty());
    engine.parse_status = 0;
    let r = run_completion(&mut engine, model.complete(REQUEST));
    assert_eq!(r, Ok("{\"text\":\" world\"}".to_string()));
    assert!(engine.balanced());
}

#[test]
fn well_formed_request_gives_text() {
    let response = "{\"text\":\"hello there\"}";
    let mut engine = Engine::ok(response);
    let model = session(&mut engine);
    let out = run_completion(&mut engine, model.complete(REQUEST)).unwrap();
    assert!(out.contains("\"text\":\"hello there\""));
    assert_eq!(engine.calls[1], NativeCall::Parse { request_json: REQUEST.to_string() });
    assert_eq!(engine.calls[2], NativeCall::Complete { handle: 0x1000 });
}

#[test]
fn call_order_frees_prompt_before_serializing() {
    let mut engine = Engine::ok("{\"text\":\"x\"}");
    let model = session(&mut engine);
    run_completion(&mut engine, model.complete(REQUEST)).unwrap();
    assert_eq!(
        engine.calls[1..].to_vec(),
        vec![
            NativeCall::Parse { request_json: REQUEST.to_string() },
            NativeCall::Complete { handle: 0x1000 },
            NativeCall::Free { buffer: Buffer::Prompt },
            NativeCall::Serialize,
            NativeCall::Free { buffer: Buffer::Response },
            NativeCall::Free { buffer: Buffer::Text },
            NativeCall::Free { buffer: Buffer::Tokens },
        ]
    );
}

#[test]
fn every_buffer_released_once_after_any_number_of_completions() {
    for n in [0usize, 1, 5] {
        let mut engine = Engine::ok("{\"text\":\"y\"}");
        let model = session(&mut engine);
        let driver = LineDriver::new(model);
        for _ in 0..n {
            let started = driver.on_line(REQUEST).unwrap();
            run_completion(&mut engine, started).unwrap();
        }
        let last = driver.finish();
        engine.reply(last);
        assert_eq!(engine.destroyed, vec![0x1000]);
        assert_eq!(engine.allocated.len(), 4 * n);
        assert!(engine.balanced());
    }
}

#[test]
fn blank_line_makes_no_native_call() {
    let mut engine = Engine::ok("{}");
    let model = session(&mut engine);
    let before = engine.calls.len();
    let driver = LineDriver::new(model);
    assert!(driver.on_line("").is_none());
    assert_eq!(engine.calls.len(), before);
    assert!(driver.on_line(" ").is_some());
}

#[test]
fn identical_requests_are_passed_through_identically() {
    let mut first = Engine::ok("{\"text\":\"same\"}");
    let mut second = Engine::ok("{\"text\":\"same\"}");
    let m1 = session(&mut first);
    let m2 = session(&mut second);
    let a = run_completion(&mut first, m1.complete(REQUEST));
    let b = run_completion(&mut second, m2.complete(REQUEST));
    assert_eq!(a, b);
    assert_eq!(first.calls, second.calls);
}

#[test]
fn completion_failure_frees_prompt_only() {
    let mut engine = Engine::ok("{}");
    engine.complete_status = 3;
    let model = session(&mut engine);
    let r = run_completion(&mut engine, model.complete(REQUEST));
    assert_eq!(r, Err(LlamaError::CompletionFailed));
    assert_eq!(engine.allocated, vec![Buffer::Prompt]);
    assert_eq!(engine.released, vec![Buffer::Prompt]);
}

#[test]
fn serialize_failure_still_frees_result_buffers() {
    let mut engine = Engine::ok("{}");
    engine.response = None;
    let model = session(&mut engine);
    let r = run_completion(&mut engine, model.complete(REQUEST));
    assert_eq!(r, Err(LlamaError::SerializeFailed));
    assert_eq!(engine.released, vec![Buffer::Prompt, Buffer::Text, Buffer::Tokens]);
    assert!(engine.balanced());
}

#[test]
fn invalid_utf8_response_still_frees_everything() {
    let mut engine = Engine::ok("{}");
    engine.response = Some(vec![b'{', 0xff, b'}']);
    let model = session(&mut engine);
    let r = run_completion(&mut engine, model.complete(REQUEST));
    assert_eq!(r, Err(LlamaError::Utf8Error));
    assert_eq!(
        engine.released,
        vec![Buffer::Prompt, Buffer::Response, Buffer::Text, Buffer::Tokens]
    );
}

#[test]
fn multibyte_response_is_decoded() {
    let mut engine = Engine::ok("{\"text\":\"héllo ✓\"}");
    engine.tokens = false;
    let model = session(&mut engine);
    let r = run_completion(&mut engine, model.complete(REQUEST));
    assert_eq!(r, Ok("{\"text\":\"héllo ✓\"}".to_string()));
    assert!(engine.balanced());
}

#[test]
fn request_with_nul_makes_no_native_call() {
    let mut engine = Engine::ok("{}");
    let model = session(&mut engine);
    let before = engine.calls.len();
    let r = run_completion(&mut engine, model.complete("{\"prompt\":\"a\0b\"}"));
    assert!(matches!(r, Err(LlamaError::Other(_))));
    assert_eq!(engine.calls.len(), before);
}

#[test]
fn single_run_creates_completes_and_destroys_once() {
    let mut engine = Engine::ok("{\"text\":\"z\"}");
    let (mut run, mut step) = complete(REQUEST, "model.gguf", 2048);
    let out = loop {
        match step {
            Step::Done(r) => break r,
            Step::Call(call) => {
                let reply = engine.reply(call);
                assert!(run.is_expected(&reply));
                step = run.step(reply);
            }
        }
    };
    assert_eq!(out, Ok("{\"text\":\"z\"}".to_string()));
    assert_eq!(engine.destroyed, vec![0x1000]);
    assert!(engine.balanced());
    assert!(run.is_finished());
    let _ = RunPhase::Finished;
}

#[test]
fn single_run_with_nul_request_still_destroys_model() {
    let mut engine = Engine::ok("{}");
    let (mut run, mut step) = complete("a\0", "model.gguf", 16);
    let out = loop {
        match step {
            Step::Done(r) => break r,
            Step::Call(call) => {
                let reply = engine.reply(call);
                step = run.step(reply);
            }
        }
    };
    assert!(matches!(out, Err(LlamaError::Other(_))));
    assert_eq!(engine.destroyed, vec![0x1000]);
    assert_eq!(engine.calls.len(), 2);
}
