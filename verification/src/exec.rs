//! The capability contract: the outcome record a capability returns,
//! and the interface every capability satisfies.

use vstd::prelude::*;
use crate::error::Error;
use crate::error::ErrorView;
use crate::json::JsonValue;
use crate::json::JsonView;
use crate::task::Task;

verus! {

/// The structured outcome of one capability invocation.  Every
/// successful path produces `success == true` with `error == None`;
/// failures are signalled by a propagated [`Error`] instead of a result
/// with `success == false`, so that channel is structurally present but
/// never populated here.
#[derive(Debug)]
pub struct ExecutionResult {
    pub success: bool,
    pub output: Option<JsonValue>,
    pub error: Option<String>,
}

/// The mathematical shape of an [`ExecutionResult`].
pub struct ExecutionResultView {
    pub success: bool,
    pub output: Option<JsonView>,
    pub error: Option<Seq<char>>,
}

impl View for ExecutionResult {
    type V = ExecutionResultView;

    open spec fn view(&self) -> ExecutionResultView {
        ExecutionResultView {
            success: self.success,
            output: match self.output {
                Some(v) => Some(v@),
                None => None,
            },
            error: match self.error {
                Some(m) => Some(m@),
                None => None,
            },
        }
    }
}

/// A successful outcome carrying the given output shape.
pub open spec fn ok_result(v: JsonView) -> ExecutionResultView {
    ExecutionResultView { success: true, output: Some(v), error: None }
}

/// Whether an executable `Result` agrees, side by side, with a
/// specification-level one.
pub open spec fn res_agrees<T: View, E: View>(r: Result<T, E>, s: Result<T::V, E::V>) -> bool {
    match (r, s) {
        (Ok(a), Ok(b)) => a@ == b,
        (Err(e), Err(f)) => e@ == f,
        _ => false,
    }
}

/// The interface a capability satisfies: a stable name used to route
/// tasks, and validation that a task is addressed to it.  Validation
/// fails with an invalid-configuration error exactly when the task
/// names another capability, whatever its operation and parameters.
pub trait Executor {
    /// The capability's routing name.
    spec fn capability_name(&self) -> Seq<char>;

    /// The error this capability reports for a task addressed to
    /// another capability.
    spec fn wrong_target_error(&self, executor: Seq<char>) -> ErrorView;

    /// The stable name identifying this capability.
    fn name(&self) -> (r: String)
        ensures
            r@ == self.capability_name(),
    ;

    /// Check that the task is addressed to this capability.
    fn validate(&self, task: &Task) -> (r: Result<(), Error>)
        ensures
            r is Ok <==> task@.executor == self.capability_name(),
            r matches Err(e) ==> e@ == self.wrong_target_error(task@.executor) && e@
                is InvalidConfig,
    ;
}

} // verus!
