//! A small task-automation library: a `Task` names a capability, an
//! operation and structured parameters; a capability validates the task,
//! dispatches on the operation, and turns it into one filesystem action
//! confined to a sandbox root.  The decision logic (validation, dispatch,
//! parameter checking, path sandboxing, output shaping) is verified; the
//! actual filesystem calls are performed by the embedding program, which
//! exchanges `FsRequest` / `FsReply` values with the library.

pub mod csvio;
pub mod error;
pub mod exec;
pub mod file;
pub mod fsio;
pub mod json;
pub mod laws;
pub mod task;

pub use error::Error;
pub use error::ErrorView;
pub use exec::ExecutionResult;
pub use exec::ExecutionResultView;
pub use exec::Executor;
pub use file::FileExecutor;
pub use fsio::FsReply;
pub use fsio::FsReplyView;
pub use fsio::FsRequest;
pub use fsio::FsRequestView;
pub use json::JsonValue;
pub use json::JsonView;
pub use task::Task;
pub use task::TaskStatus;
pub use task::TaskView;
