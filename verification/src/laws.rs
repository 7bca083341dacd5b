//! The capability's general guarantees, stated and proved once over the
//! specification functions that `prepare` and `complete` are verified
//! against.

use vstd::prelude::*;
use crate::error::ErrorView;
use crate::exec::ok_result;
use crate::file::contains_dotdot;
use crate::file::file_capability_name;
use crate::file::join_paths;
use crate::file::known_operation;
use crate::file::reply_fits;
use crate::file::spec_complete;
use crate::file::spec_prepare;
use crate::file::str_param;
use crate::file::strs_param;
use crate::file::rows_param;
use crate::file::unknown_operation_error;
use crate::file::wrong_executor_error;
use crate::fsio::FsReplyView;
use crate::fsio::FsRequestView;
use crate::json::JsonView;
use crate::json::json_lookup;
use crate::json::obj1_view;
use crate::json::str_arr_view;
use crate::task::TaskView;

verus! {

/// Reveal the operation-name literals and pin their first characters,
/// so that distinct names are provably distinct.
proof fn lemma_operation_literals()
    ensures
        "read"@[0] == 'r' && "read"@.len() == 4,
        "read_csv"@[0] == 'r' && "read_csv"@.len() == 8,
        "read_json"@[0] == 'r' && "read_json"@.len() == 9,
        "write"@[0] == 'w' && "write"@.len() == 5,
        "delete"@[0] == 'd' && "delete"@.len() == 6,
        "move"@[0] == 'm' && "move"@.len() == 4,
        "copy"@[0] == 'c' && "copy"@.len() == 4,
        "list"@[0] == 'l' && "list"@.len() == 4,
        "write_json"@[0] == 'w' && "write_json"@.len() == 10,
        "write_csv"@[0] == 'w' && "write_csv"@.len() == 9,
        "create_dir"@[0] == 'c' && "create_dir"@.len() == 10,
        "exists"@[0] == 'e' && "exists"@.len() == 6,
{
    reveal_strlit("read");
    reveal_strlit("read_csv");
    reveal_strlit("read_json");
    reveal_strlit("write");
    reveal_strlit("delete");
    reveal_strlit("move");
    reveal_strlit("copy");
    reveal_strlit("list");
    reveal_strlit("write_json");
    reveal_strlit("write_csv");
    reveal_strlit("create_dir");
    reveal_strlit("exists");
}

/// Whether the task's parameters are complete for its operation and
/// name at least one path containing the traversal marker `..`.
pub open spec fn traversal_in_params(task: TaskView) -> bool {
    let params = task.params;
    if task.operation == "write"@ {
        &&& str_param(params, "content"@) is Some
        &&& (str_param(params, "path"@) matches Some(p) && contains_dotdot(p))
    } else if task.operation == "write_json"@ {
        &&& json_lookup(params, "data"@) is Some
        &&& (str_param(params, "path"@) matches Some(p) && contains_dotdot(p))
    } else if task.operation == "write_csv"@ {
        &&& strs_param(params, "headers"@) is Some
        &&& rows_param(params, "rows"@) is Some
        &&& (str_param(params, "path"@) matches Some(p) && contains_dotdot(p))
    } else if task.operation == "move"@ || task.operation == "copy"@ {
        &&& str_param(params, "from"@) is Some
        &&& str_param(params, "to"@) is Some
        &&& (contains_dotdot(str_param(params, "from"@)->Some_0) || contains_dotdot(
            str_param(params, "to"@)->Some_0,
        ))
    } else {
        str_param(params, "path"@) matches Some(p) && contains_dotdot(p)
    }
}

/// For every path string containing `..`, every operation on that path
/// is refused with a permission error while the task is still being
/// turned into its filesystem action — that is, before any filesystem
/// call could occur.
#[verifier::rlimit(100)]
pub proof fn lemma_traversal_rejected(base: Seq<char>, task: TaskView)
    requires
        task.executor == file_capability_name(),
        known_operation(task.operation),
        traversal_in_params(task),
    ensures
        spec_prepare(base, task) == Err::<FsRequestView, ErrorView>(
            ErrorView::PermissionDenied("Path traversal not allowed"@),
        ),
{
    lemma_operation_literals();
}

/// A task naming an operation outside the dispatch table is refused
/// with an invalid-configuration error that names the operation.
pub proof fn lemma_unknown_operation(base: Seq<char>, task: TaskView)
    requires
        task.executor == file_capability_name(),
        !known_operation(task.operation),
    ensures
        spec_prepare(base, task) == Err::<FsRequestView, ErrorView>(
            unknown_operation_error(task.operation),
        ),
        unknown_operation_error(task.operation) == ErrorView::InvalidConfig(
            "Unknown operation: "@ + task.operation,
        ),
{
}

/// A task addressed to another capability is refused with an
/// invalid-configuration error before anything else is looked at,
/// whatever its operation and parameters.
pub proof fn lemma_wrong_executor(base: Seq<char>, task: TaskView, reply: FsReplyView)
    requires
        task.executor != file_capability_name(),
    ensures
        spec_prepare(base, task) == Err::<FsRequestView, ErrorView>(
            wrong_executor_error(task.executor),
        ),
        spec_complete(base, task, reply) == Err::<crate::exec::ExecutionResultView, ErrorView>(
            wrong_executor_error(task.executor),
        ),
{
}

/// Writing content to a path and then reading that path back yields
/// exactly the written content: both tasks resolve to the same joined
/// path, so a filesystem that returns what was last written answers the
/// read with the written text, and the read outcome carries it
/// unchanged under the `content` key.
pub proof fn lemma_write_then_read(
    base: Seq<char>,
    wt: TaskView,
    rt: TaskView,
    p: Seq<char>,
    c: Seq<char>,
)
    requires
        wt.executor == file_capability_name(),
        rt.executor == file_capability_name(),
        wt.operation == "write"@,
        rt.operation == "read"@,
        str_param(wt.params, "path"@) == Some(p),
        str_param(wt.params, "content"@) == Some(c),
        str_param(rt.params, "path"@) == Some(p),
        !contains_dotdot(p),
    ensures
        spec_prepare(base, wt) == Ok::<FsRequestView, ErrorView>(
            FsRequestView::WriteText { path: join_paths(base, p), content: c },
        ),
        spec_prepare(base, rt) == Ok::<FsRequestView, ErrorView>(
            FsRequestView::ReadText { path: join_paths(base, p) },
        ),
        spec_complete(base, rt, FsReplyView::Text(c)) == Ok::<
            crate::exec::ExecutionResultView,
            ErrorView,
        >(ok_result(obj1_view("content"@, JsonView::Str(c)))),
{
    lemma_operation_literals();
}

/// The `list` outcome reports exactly the entry names the directory
/// enumeration handed back, in that order: none are added, dropped or
/// rewritten.
pub proof fn lemma_list_reports_entries(base: Seq<char>, task: TaskView, names: Seq<Seq<char>>)
    requires
        task.executor == file_capability_name(),
        task.operation == "list"@,
    ensures
        spec_complete(base, task, FsReplyView::Entries(names)) == Ok::<
            crate::exec::ExecutionResultView,
            ErrorView,
        >(ok_result(obj1_view("files"@, str_arr_view(names)))),
{
    lemma_operation_literals();
}

/// The `exists` outcome reports exactly the flag the filesystem
/// answered with, under the `exists` key.
pub proof fn lemma_exists_reports_flag(base: Seq<char>, task: TaskView, found: bool)
    requires
        task.executor == file_capability_name(),
        task.operation == "exists"@,
    ensures
        spec_complete(base, task, FsReplyView::Found(found)) == Ok::<
            crate::exec::ExecutionResultView,
            ErrorView,
        >(ok_result(obj1_view("exists"@, JsonView::Bool(found)))),
{
    lemma_operation_literals();
}

/// Whether a path is the sandbox root joined with some task-supplied
/// path free of the traversal marker.
pub open spec fn sandbox_resolved(base: Seq<char>, path: Seq<char>) -> bool {
    exists|p: Seq<char>| !contains_dotdot(p) && path == #[trigger] join_paths(base, p)
}

/// Whether every path a request names is sandbox-resolved.
pub open spec fn request_sandboxed(base: Seq<char>, req: FsRequestView) -> bool {
    match req {
        FsRequestView::ReadText { path } => sandbox_resolved(base, path),
        FsRequestView::ReadJson { path } => sandbox_resolved(base, path),
        FsRequestView::WriteText { path, .. } => sandbox_resolved(base, path),
        FsRequestView::WriteBytes { path, .. } => sandbox_resolved(base, path),
        FsRequestView::WriteJson { path, .. } => sandbox_resolved(base, path),
        FsRequestView::Delete { path } => sandbox_resolved(base, path),
        FsRequestView::Copy { from, to } => sandbox_resolved(base, from) && sandbox_resolved(
            base,
            to,
        ),
        FsRequestView::Rename { from, to } => sandbox_resolved(base, from) && sandbox_resolved(
            base,
            to,
        ),
        FsRequestView::ListDir { path } => sandbox_resolved(base, path),
        FsRequestView::CreateDirAll { path } => sandbox_resolved(base, path),
        FsRequestView::CheckExists { path } => sandbox_resolved(base, path),
    }
}

/// The positive side of the sandbox rule: whatever the task, every
/// path in a successfully prepared request is the root joined with a
/// task-supplied path that passed the traversal check.
#[verifier::rlimit(100)]
pub proof fn lemma_requests_stay_in_sandbox(base: Seq<char>, task: TaskView)
    ensures
        spec_prepare(base, task) matches Ok(req) ==> request_sandboxed(base, req),
{
}

/// Every successful outcome has `success == true` and no error
/// message: the soft-failure channel is structurally present but never
/// populated.
#[verifier::rlimit(100)]
pub proof fn lemma_success_shape(base: Seq<char>, task: TaskView, reply: FsReplyView)
    requires
        reply_fits(task.operation, reply),
    ensures
        spec_complete(base, task, reply) matches Ok(res) ==> res.success && res.error is None,
{
    lemma_operation_literals();
}

} // verus!
