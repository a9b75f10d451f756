//! A safe request/response boundary around an opaque native text-completion
//! engine.
//!
//! The engine itself is reached only through native calls that the caller of
//! this library performs. The library decides which call comes next, keeps the
//! ledger of every buffer that crosses the boundary, and proves that each one
//! is released exactly once on every path.
pub mod error;
pub mod native;
pub mod completion;
pub mod session;
pub mod single;
pub mod driver;
pub mod laws;

pub use completion::{Completion, Phase};
pub use driver::LineDriver;
pub use error::LlamaError;
pub use native::{Buffer, NativeCall, NativeReply, Step};
pub use session::{LlamaModel, LlamaState};
pub use single::{RunPhase, SingleRun, complete};
