//! The filesystem capability: operation dispatch, parameter validation,
//! path sandboxing, and output shaping.  The capability owns a sandbox
//! root fixed at construction; every path a task names is resolved
//! against it, after a traversal check on the raw path string.

use vstd::prelude::*;
use vstd::pervasive::unreached;
use crate::error::Error;
use crate::error::ErrorView;
use crate::csvio::csv_decode;
use crate::csvio::csv_encode;
use crate::csvio::csv_encode_of;
use crate::csvio::csv_parse_of;
use crate::exec::ExecutionResult;
use crate::exec::ExecutionResultView;
use crate::exec::Executor;
use crate::exec::ok_result;
use crate::exec::res_agrees;
use crate::fsio::FsReply;
use crate::fsio::FsReplyView;
use crate::fsio::FsRequest;
use crate::fsio::FsRequestView;
use crate::json::JsonValue;
use crate::json::JsonView;
use crate::json::json_lookup;
use crate::json::obj1;
use crate::json::obj1_view;
use crate::json::obj2;
use crate::json::obj2_view;
use crate::json::rows_value;
use crate::json::rows_view;
use crate::json::str_arr_view;
use crate::json::str_list_value;
use crate::json::json_view;
use crate::json::str_eq;
use crate::task::Task;
use crate::task::TaskView;

verus! {

/// The concrete capability operating on a sandboxed filesystem subtree.
/// Its only state is the sandbox root, immutable after construction, so
/// independent invocations need no coordination.
pub struct FileExecutor {
    base_path: String,
}

impl View for FileExecutor {
    type V = Seq<char>;

    closed spec fn view(&self) -> Seq<char> {
        self.base_path@
    }
}

/// The routing name of the filesystem capability.
pub open spec fn file_capability_name() -> Seq<char> {
    "file"@
}

/// Whether the raw path string contains the traversal marker `..`
/// anywhere.  This is deliberately the same naive check the capability
/// has always made: it inspects the raw string only, so absolute paths
/// without `..` are not caught.
pub open spec fn contains_dotdot(s: Seq<char>) -> bool {
    exists|i: int| 0 <= i && i + 1 < s.len() && #[trigger] s[i] == '.' && s[i + 1] == '.'
}

/// Joining a path onto the sandbox root, with the usual path-join rule:
/// an absolute path replaces the root, otherwise a separator is added
/// unless the root is empty or already ends in one.
pub open spec fn join_paths(base: Seq<char>, p: Seq<char>) -> Seq<char> {
    if p.len() > 0 && p[0] == '/' {
        p
    } else if base.len() == 0 {
        p
    } else if base[base.len() - 1] == '/' {
        base + p
    } else {
        base + seq!['/'] + p
    }
}

/// The sandbox rule: a path containing `..` is rejected with a
/// permission error before anything else happens; any other path is
/// joined onto the root.
pub open spec fn spec_resolve(base: Seq<char>, p: Seq<char>) -> Result<Seq<char>, ErrorView> {
    if contains_dotdot(p) {
        Err(ErrorView::PermissionDenied("Path traversal not allowed"@))
    } else {
        Ok(join_paths(base, p))
    }
}

/// The error produced when a task is addressed to another capability.
pub open spec fn wrong_executor_error(executor: Seq<char>) -> ErrorView {
    ErrorView::InvalidConfig("Wrong executor: expected 'file', got '"@ + executor + "'"@)
}

impl FileExecutor {
    /// A capability confined to the given sandbox root.
    pub fn new(base_path: String) -> (r: FileExecutor)
        ensures
            r@ == base_path@,
    {
        FileExecutor { base_path }
    }

    /// Resolve a task-supplied path against the sandbox root, rejecting
    /// any path that contains `..`.
    #[verifier::loop_isolation(false)]
    pub fn resolve_path(&self, path: &str) -> (r: Result<String, Error>)
        ensures
            crate::exec::res_agrees(r, spec_resolve(self@, path@)),
    {
        let n = path.unicode_len();
        if n >= 2 {
            for i in 0..n - 1
                invariant
                    forall|j: int| 0 <= j < i ==> !(#[trigger] path@[j] == '.' && path@[j + 1]
                        == '.'),
            {
                if path.get_char(i) == '.' && path.get_char(i + 1) == '.' {
                    return Err(
                        Error::PermissionDenied(String::from_str("Path traversal not allowed")),
                    );
                }
            }
        }
        assert(!contains_dotdot(path@));
        let base_len = self.base_path.as_str().unicode_len();
        let joined: String = if n > 0 && path.get_char(0) == '/' {
            String::from_str(path)
        } else if base_len == 0 {
            String::from_str(path)
        } else if self.base_path.as_str().get_char(base_len - 1) == '/' {
            self.base_path.clone().concat(path)
        } else {
            proof {
                reveal_strlit("/");
                assert("/"@ =~= seq!['/']);
            }
            self.base_path.clone().concat("/").concat(path)
        };
        Ok(joined)
    }
}

/// The error produced when a parameter field is missing or has the
/// wrong shape.
pub open spec fn param_error(key: Seq<char>) -> ErrorView {
    ErrorView::InvalidConfig("missing or invalid parameter: "@ + key)
}

/// The string stored at `key` in the parameter object, if any.
pub open spec fn str_param(params: JsonView, key: Seq<char>) -> Option<Seq<char>> {
    match json_lookup(params, key) {
        Some(JsonView::Str(s)) => Some(s),
        _ => None,
    }
}

/// Whether every item of a sequence of shapes is a string.
pub open spec fn all_str(items: Seq<JsonView>) -> bool {
    forall|i: int| 0 <= i < items.len() ==> (#[trigger] items[i]) is Str
}

/// The strings of a sequence of string shapes.
pub open spec fn str_items(items: Seq<JsonView>) -> Seq<Seq<char>> {
    Seq::new(items.len(), |i: int| items[i]->Str_0)
}

/// The string array stored at `key` in the parameter object, if any.
pub open spec fn strs_param(params: JsonView, key: Seq<char>) -> Option<Seq<Seq<char>>> {
    match json_lookup(params, key) {
        Some(JsonView::Arr(items)) => if all_str(items) {
            Some(str_items(items))
        } else {
            None
        },
        _ => None,
    }
}

/// Whether every item of a sequence of shapes is an array of strings.
pub open spec fn all_rows(items: Seq<JsonView>) -> bool {
    forall|i: int|
        0 <= i < items.len() ==> (#[trigger] items[i]) is Arr && all_str(items[i]->Arr_0)
}

/// The rows of a sequence of string-array shapes.
pub open spec fn rows_items(items: Seq<JsonView>) -> Seq<Seq<Seq<char>>> {
    Seq::new(items.len(), |i: int| str_items(items[i]->Arr_0))
}

/// The array of string arrays stored at `key` in the parameter object,
/// if any.
pub open spec fn rows_param(params: JsonView, key: Seq<char>) -> Option<Seq<Seq<Seq<char>>>> {
    match json_lookup(params, key) {
        Some(JsonView::Arr(items)) => if all_rows(items) {
            Some(rows_items(items))
        } else {
            None
        },
        _ => None,
    }
}

fn invalid_param(key: &str) -> (r: Error)
    ensures
        r@ == param_error(key@),
{
    Error::InvalidConfig(String::from_str("missing or invalid parameter: ").concat(key))
}

fn get_str_param(params: &JsonValue, key: &str) -> (r: Result<String, Error>)
    ensures
        match r {
            Ok(s) => str_param(params@, key@) == Some(s@),
            Err(e) => str_param(params@, key@) is None && e@ == param_error(key@),
        },
{
    match params.get(key) {
        Some(v) => match v {
            JsonValue::Str(s) => Ok(s.clone()),
            _ => Err(invalid_param(key)),
        },
        None => Err(invalid_param(key)),
    }
}

fn get_value_param(params: &JsonValue, key: &str) -> (r: Result<JsonValue, Error>)
    ensures
        match r {
            Ok(v) => json_lookup(params@, key@) == Some(v@),
            Err(e) => json_lookup(params@, key@) is None && e@ == param_error(key@),
        },
{
    match params.get(key) {
        Some(v) => Ok(v.deep_clone()),
        None => Err(invalid_param(key)),
    }
}

#[verifier::loop_isolation(false)]
fn as_str_vec(v: &JsonValue) -> (r: Option<Vec<String>>)
    ensures
        match r {
            Some(out) => v@ is Arr && all_str(v@->Arr_0) && out.deep_view() == str_items(
                v@->Arr_0,
            ),
            None => !(v@ is Arr && all_str(v@->Arr_0)),
        },
{
    match v {
        JsonValue::Arr(items) => {
            let mut out: Vec<String> = Vec::new();
            let n = items.len();
            for i in 0..n
                invariant
                    out@.len() == i,
                    forall|j: int|
                        #![all_triggers]
                        0 <= j < i ==> json_view(items@[j]) is Str && out@[j]@ == json_view(
                            items@[j],
                        )->Str_0,
            {
                match &items[i] {
                    JsonValue::Str(s) => out.push(s.clone()),
                    _ => {
                        assert(!(v@->Arr_0[i as int] is Str));
                        return None;
                    },
                }
            }
            proof {
                assert(all_str(v@->Arr_0));
                assert(out.deep_view() =~= str_items(v@->Arr_0));
            }
            Some(out)
        },
        _ => None,
    }
}

fn get_strs_param(params: &JsonValue, key: &str) -> (r: Result<Vec<String>, Error>)
    ensures
        match r {
            Ok(v) => strs_param(params@, key@) == Some(v.deep_view()),
            Err(e) => strs_param(params@, key@) is None && e@ == param_error(key@),
        },
{
    match params.get(key) {
        Some(v) => match as_str_vec(v) {
            Some(out) => Ok(out),
            None => Err(invalid_param(key)),
        },
        None => Err(invalid_param(key)),
    }
}

#[verifier::loop_isolation(false)]
fn get_rows_param(params: &JsonValue, key: &str) -> (r: Result<Vec<Vec<String>>, Error>)
    ensures
        match r {
            Ok(v) => rows_param(params@, key@) == Some(v.deep_view()),
            Err(e) => rows_param(params@, key@) is None && e@ == param_error(key@),
        },
{
    match params.get(key) {
        Some(v) => match v {
            JsonValue::Arr(items) => {
                let mut out: Vec<Vec<String>> = Vec::new();
                let n = items.len();
                for i in 0..n
                    invariant
                        out@.len() == i,
                        forall|j: int|
                            #![all_triggers]
                            0 <= j < i ==> json_view(items@[j]) is Arr && all_str(
                                json_view(items@[j])->Arr_0,
                            ) && out@[j].deep_view() == str_items(json_view(items@[j])->Arr_0),
                {
                    match as_str_vec(&items[i]) {
                        Some(row) => out.push(row),
                        None => {
                            assert(!(v@->Arr_0[i as int] is Arr && all_str(
                                v@->Arr_0[i as int]->Arr_0,
                            )));
                            return Err(invalid_param(key));
                        },
                    }
                }
                proof {
                    assert(all_rows(v@->Arr_0));
                    assert(out.deep_view() =~= rows_items(v@->Arr_0));
                }
                Ok(out)
            },
            _ => Err(invalid_param(key)),
        },
        None => Err(invalid_param(key)),
    }
}

/// The error produced for an unrecognized operation name, naming it.
pub open spec fn unknown_operation_error(op: Seq<char>) -> ErrorView {
    ErrorView::InvalidConfig("Unknown operation: "@ + op)
}

/// The names the dispatch table recognizes.
pub open spec fn known_operation(op: Seq<char>) -> bool {
    ||| op == "read"@
    ||| op == "read_csv"@
    ||| op == "read_json"@
    ||| op == "write"@
    ||| op == "delete"@
    ||| op == "move"@
    ||| op == "copy"@
    ||| op == "list"@
    ||| op == "write_json"@
    ||| op == "write_csv"@
    ||| op == "create_dir"@
    ||| op == "exists"@
}

/// Extract the `path` parameter and resolve it against the root.
pub open spec fn spec_path_param(base: Seq<char>, params: JsonView) -> Result<
    Seq<char>,
    ErrorView,
> {
    match str_param(params, "path"@) {
        Some(p) => spec_resolve(base, p),
        None => Err(param_error("path"@)),
    }
}

/// Extract the `from` and `to` parameters and resolve each against the
/// root, `from` first.
pub open spec fn spec_transfer_params(base: Seq<char>, params: JsonView) -> Result<
    (Seq<char>, Seq<char>),
    ErrorView,
> {
    match str_param(params, "from"@) {
        Some(f) => match str_param(params, "to"@) {
            Some(t) => match spec_resolve(base, f) {
                Ok(rf) => match spec_resolve(base, t) {
                    Ok(rt) => Ok((rf, rt)),
                    Err(e) => Err(e),
                },
                Err(e) => Err(e),
            },
            None => Err(param_error("to"@)),
        },
        None => Err(param_error("from"@)),
    }
}

/// The request prepared for `read` and `read_csv`: read the resolved
/// file as text.
pub open spec fn spec_read_request(base: Seq<char>, params: JsonView) -> Result<
    FsRequestView,
    ErrorView,
> {
    match spec_path_param(base, params) {
        Ok(p) => Ok(FsRequestView::ReadText { path: p }),
        Err(e) => Err(e),
    }
}

/// The request prepared for `read_json`: read the resolved file and
/// parse it as a structured value.
pub open spec fn spec_read_json_request(base: Seq<char>, params: JsonView) -> Result<
    FsRequestView,
    ErrorView,
> {
    match spec_path_param(base, params) {
        Ok(p) => Ok(FsRequestView::ReadJson { path: p }),
        Err(e) => Err(e),
    }
}

/// The request prepared for `write`: write the `content` parameter to
/// the resolved file.
pub open spec fn spec_write_request(base: Seq<char>, params: JsonView) -> Result<
    FsRequestView,
    ErrorView,
> {
    match str_param(params, "path"@) {
        Some(p) => match str_param(params, "content"@) {
            Some(c) => match spec_resolve(base, p) {
                Ok(rp) => Ok(FsRequestView::WriteText { path: rp, content: c }),
                Err(e) => Err(e),
            },
            None => Err(param_error("content"@)),
        },
        None => Err(param_error("path"@)),
    }
}

/// The request prepared for `delete`: remove the resolved file.
pub open spec fn spec_delete_request(base: Seq<char>, params: JsonView) -> Result<
    FsRequestView,
    ErrorView,
> {
    match spec_path_param(base, params) {
        Ok(p) => Ok(FsRequestView::Delete { path: p }),
        Err(e) => Err(e),
    }
}

/// The request prepared for `copy`: copy between the resolved paths.
pub open spec fn spec_copy_request(base: Seq<char>, params: JsonView) -> Result<
    FsRequestView,
    ErrorView,
> {
    match spec_transfer_params(base, params) {
        Ok(ft) => Ok(FsRequestView::Copy { from: ft.0, to: ft.1 }),
        Err(e) => Err(e),
    }
}

/// The request prepared for `move`: rename between the resolved paths.
pub open spec fn spec_move_request(base: Seq<char>, params: JsonView) -> Result<
    FsRequestView,
    ErrorView,
> {
    match spec_transfer_params(base, params) {
        Ok(ft) => Ok(FsRequestView::Rename { from: ft.0, to: ft.1 }),
        Err(e) => Err(e),
    }
}

/// The request prepared for `list`: enumerate the resolved directory.
pub open spec fn spec_list_request(base: Seq<char>, params: JsonView) -> Result<
    FsRequestView,
    ErrorView,
> {
    match spec_path_param(base, params) {
        Ok(p) => Ok(FsRequestView::ListDir { path: p }),
        Err(e) => Err(e),
    }
}

/// The request prepared for `write_json`: serialize the `data`
/// parameter and write it to the resolved file.
pub open spec fn spec_write_json_request(base: Seq<char>, params: JsonView) -> Result<
    FsRequestView,
    ErrorView,
> {
    match str_param(params, "path"@) {
        Some(p) => match json_lookup(params, "data"@) {
            Some(d) => match spec_resolve(base, p) {
                Ok(rp) => Ok(FsRequestView::WriteJson { path: rp, data: d }),
                Err(e) => Err(e),
            },
            None => Err(param_error("data"@)),
        },
        None => Err(param_error("path"@)),
    }
}

/// The request prepared for `write_csv`: build the CSV document from
/// the `headers` and `rows` parameters and write its bytes to the
/// resolved file.  A codec error becomes an I/O error, as for any other
/// malformed document.
pub open spec fn spec_write_csv_request(base: Seq<char>, params: JsonView) -> Result<
    FsRequestView,
    ErrorView,
> {
    match str_param(params, "path"@) {
        Some(p) => match strs_param(params, "headers"@) {
            Some(hs) => match rows_param(params, "rows"@) {
                Some(rs) => match spec_resolve(base, p) {
                    Ok(rp) => match csv_encode_of(hs, rs) {
                        Ok(bytes) => Ok(FsRequestView::WriteBytes { path: rp, bytes }),
                        Err(m) => Err(ErrorView::Io(m)),
                    },
                    Err(e) => Err(e),
                },
                None => Err(param_error("rows"@)),
            },
            None => Err(param_error("headers"@)),
        },
        None => Err(param_error("path"@)),
    }
}

/// The request prepared for `create_dir`: create the resolved
/// directory and any missing parents.
pub open spec fn spec_create_dir_request(base: Seq<char>, params: JsonView) -> Result<
    FsRequestView,
    ErrorView,
> {
    match spec_path_param(base, params) {
        Ok(p) => Ok(FsRequestView::CreateDirAll { path: p }),
        Err(e) => Err(e),
    }
}

/// The request prepared for `exists`: test the resolved path.
pub open spec fn spec_exists_request(base: Seq<char>, params: JsonView) -> Result<
    FsRequestView,
    ErrorView,
> {
    match spec_path_param(base, params) {
        Ok(p) => Ok(FsRequestView::CheckExists { path: p }),
        Err(e) => Err(e),
    }
}

/// What `prepare` yields: validation, then dispatch by operation name,
/// then per-operation parameter checking and path resolution.
pub open spec fn spec_prepare(base: Seq<char>, task: TaskView) -> Result<
    FsRequestView,
    ErrorView,
> {
    if task.executor != file_capability_name() {
        Err(wrong_executor_error(task.executor))
    } else if task.operation == "read"@ {
        spec_read_request(base, task.params)
    } else if task.operation == "read_csv"@ {
        spec_read_request(base, task.params)
    } else if task.operation == "read_json"@ {
        spec_read_json_request(base, task.params)
    } else if task.operation == "write"@ {
        spec_write_request(base, task.params)
    } else if task.operation == "delete"@ {
        spec_delete_request(base, task.params)
    } else if task.operation == "move"@ {
        spec_move_request(base, task.params)
    } else if task.operation == "copy"@ {
        spec_copy_request(base, task.params)
    } else if task.operation == "list"@ {
        spec_list_request(base, task.params)
    } else if task.operation == "write_json"@ {
        spec_write_json_request(base, task.params)
    } else if task.operation == "write_csv"@ {
        spec_write_csv_request(base, task.params)
    } else if task.operation == "create_dir"@ {
        spec_create_dir_request(base, task.params)
    } else if task.operation == "exists"@ {
        spec_exists_request(base, task.params)
    } else {
        Err(unknown_operation_error(task.operation))
    }
}

impl FileExecutor {
    fn resolved_path_param(&self, task: &Task) -> (r: Result<String, Error>)
        ensures
            res_agrees(r, spec_path_param(self@, task@.params)),
    {
        match get_str_param(&task.params, "path") {
            Ok(p) => self.resolve_path(p.as_str()),
            Err(e) => Err(e),
        }
    }

    fn read_file(&self, task: &Task) -> (r: Result<FsRequest, Error>)
        ensures
            res_agrees(r, spec_read_request(self@, task@.params)),
    {
        match self.resolved_path_param(task) {
            Ok(p) => Ok(FsRequest::ReadText { path: p }),
            Err(e) => Err(e),
        }
    }

    fn read_csv(&self, task: &Task) -> (r: Result<FsRequest, Error>)
        ensures
            res_agrees(r, spec_read_request(self@, task@.params)),
    {
        match self.resolved_path_param(task) {
            Ok(p) => Ok(FsRequest::ReadText { path: p }),
            Err(e) => Err(e),
        }
    }

    fn read_json(&self, task: &Task) -> (r: Result<FsRequest, Error>)
        ensures
            res_agrees(r, spec_read_json_request(self@, task@.params)),
    {
        match self.resolved_path_param(task) {
            Ok(p) => Ok(FsRequest::ReadJson { path: p }),
            Err(e) => Err(e),
        }
    }

    fn write_file(&self, task: &Task) -> (r: Result<FsRequest, Error>)
        ensures
            res_agrees(r, spec_write_request(self@, task@.params)),
    {
        match get_str_param(&task.params, "path") {
            Ok(p) => match get_str_param(&task.params, "content") {
                Ok(content) => match self.resolve_path(p.as_str()) {
                    Ok(rp) => Ok(FsRequest::WriteText { path: rp, content }),
                    Err(e) => Err(e),
                },
                Err(e) => Err(e),
            },
            Err(e) => Err(e),
        }
    }

    fn delete_file(&self, task: &Task) -> (r: Result<FsRequest, Error>)
        ensures
            res_agrees(r, spec_delete_request(self@, task@.params)),
    {
        match self.resolved_path_param(task) {
            Ok(p) => Ok(FsRequest::Delete { path: p }),
            Err(e) => Err(e),
        }
    }

    fn transfer_params(&self, task: &Task) -> (r: Result<(String, String), Error>)
        ensures
            match (r, spec_transfer_params(self@, task@.params)) {
                (Ok(ab), Ok(sab)) => ab.0@ == sab.0 && ab.1@ == sab.1,
                (Err(e), Err(f)) => e@ == f,
                _ => false,
            },
    {
        match get_str_param(&task.params, "from") {
            Ok(f) => match get_str_param(&task.params, "to") {
                Ok(t) => match self.resolve_path(f.as_str()) {
                    Ok(rf) => match self.resolve_path(t.as_str()) {
                        Ok(rt) => Ok((rf, rt)),
                        Err(e) => Err(e),
                    },
                    Err(e) => Err(e),
                },
                Err(e) => Err(e),
            },
            Err(e) => Err(e),
        }
    }

    fn copy_file(&self, task: &Task) -> (r: Result<FsRequest, Error>)
        ensures
            res_agrees(r, spec_copy_request(self@, task@.params)),
    {
        match self.transfer_params(task) {
            Ok(ft) => Ok(FsRequest::Copy { from: ft.0, to: ft.1 }),
            Err(e) => Err(e),
        }
    }

    fn move_file(&self, task: &Task) -> (r: Result<FsRequest, Error>)
        ensures
            res_agrees(r, spec_move_request(self@, task@.params)),
    {
        match self.transfer_params(task) {
            Ok(ft) => Ok(FsRequest::Rename { from: ft.0, to: ft.1 }),
            Err(e) => Err(e),
        }
    }

    fn list_dir(&self, task: &Task) -> (r: Result<FsRequest, Error>)
        ensures
            res_agrees(r, spec_list_request(self@, task@.params)),
    {
        match self.resolved_path_param(task) {
            Ok(p) => Ok(FsRequest::ListDir { path: p }),
            Err(e) => Err(e),
        }
    }

    fn write_json(&self, task: &Task) -> (r: Result<FsRequest, Error>)
        ensures
            res_agrees(r, spec_write_json_request(self@, task@.params)),
    {
        match get_str_param(&task.params, "path") {
            Ok(p) => match get_value_param(&task.params, "data") {
                Ok(data) => match self.resolve_path(p.as_str()) {
                    Ok(rp) => Ok(FsRequest::WriteJson { path: rp, data }),
                    Err(e) => Err(e),
                },
                Err(e) => Err(e),
            },
            Err(e) => Err(e),
        }
    }

    fn write_csv(&self, task: &Task) -> (r: Result<FsRequest, Error>)
        ensures
            res_agrees(r, spec_write_csv_request(self@, task@.params)),
    {
        match get_str_param(&task.params, "path") {
            Ok(p) => match get_strs_param(&task.params, "headers") {
                Ok(headers) => match get_rows_param(&task.params, "rows") {
                    Ok(rows) => match self.resolve_path(p.as_str()) {
                        Ok(rp) => match csv_encode(&headers, &rows) {
                            Ok(bytes) => Ok(FsRequest::WriteBytes { path: rp, bytes }),
                            Err(m) => Err(Error::Io(m)),
                        },
                        Err(e) => Err(e),
                    },
                    Err(e) => Err(e),
                },
                Err(e) => Err(e),
            },
            Err(e) => Err(e),
        }
    }

    fn create_dir(&self, task: &Task) -> (r: Result<FsRequest, Error>)
        ensures
            res_agrees(r, spec_create_dir_request(self@, task@.params)),
    {
        match self.resolved_path_param(task) {
            Ok(p) => Ok(FsRequest::CreateDirAll { path: p }),
            Err(e) => Err(e),
        }
    }

    fn path_exists(&self, task: &Task) -> (r: Result<FsRequest, Error>)
        ensures
            res_agrees(r, spec_exists_request(self@, task@.params)),
    {
        match self.resolved_path_param(task) {
            Ok(p) => Ok(FsRequest::CheckExists { path: p }),
            Err(e) => Err(e),
        }
    }

    /// Turn a task into the one filesystem action it asks for: validate
    /// that the task is addressed to this capability, dispatch on its
    /// operation name, check the parameters, and resolve every path
    /// against the sandbox root.  No filesystem call happens here.
    pub fn prepare(&self, task: &Task) -> (r: Result<FsRequest, Error>)
        ensures
            res_agrees(r, spec_prepare(self@, task@)),
    {
        if let Err(e) = self.validate(task) {
            return Err(e);
        }
        let op = task.operation.as_str();
        if str_eq(op, "read") {
            self.read_file(task)
        } else if str_eq(op, "read_csv") {
            self.read_csv(task)
        } else if str_eq(op, "read_json") {
            self.read_json(task)
        } else if str_eq(op, "write") {
            self.write_file(task)
        } else if str_eq(op, "delete") {
            self.delete_file(task)
        } else if str_eq(op, "move") {
            self.move_file(task)
        } else if str_eq(op, "copy") {
            self.copy_file(task)
        } else if str_eq(op, "list") {
            self.list_dir(task)
        } else if str_eq(op, "write_json") {
            self.write_json(task)
        } else if str_eq(op, "write_csv") {
            self.write_csv(task)
        } else if str_eq(op, "create_dir") {
            self.create_dir(task)
        } else if str_eq(op, "exists") {
            self.path_exists(task)
        } else {
            Err(Error::InvalidConfig(String::from_str("Unknown operation: ").concat(op)))
        }
    }
}

/// Which replies can answer which operation: reading yields text,
/// listing yields entry names, an existence test yields a flag (and
/// never fails), everything else completes or fails; any read may fail
/// at the I/O level.
pub open spec fn reply_fits(op: Seq<char>, reply: FsReplyView) -> bool {
    if op == "read"@ || op == "read_csv"@ {
        reply is Text || reply is IoFailed
    } else if op == "read_json"@ {
        reply is JsonParsed || reply is IoFailed
    } else if op == "list"@ {
        reply is Entries || reply is IoFailed
    } else if op == "exists"@ {
        reply is Found
    } else if op == "write"@ || op == "delete"@ || op == "move"@ || op == "copy"@ || op
        == "write_json"@ || op == "write_csv"@ || op == "create_dir"@ {
        reply is Done || reply is IoFailed
    } else {
        true
    }
}

/// The outcome of `read`: the text read, under the `content` key.
pub open spec fn spec_read_done(reply: FsReplyView) -> Result<ExecutionResultView, ErrorView> {
    match reply {
        FsReplyView::Text(c) => Ok(ok_result(obj1_view("content"@, JsonView::Str(c)))),
        FsReplyView::IoFailed(m) => Err(ErrorView::Io(m)),
        _ => arbitrary(),
    }
}

/// The outcome of `read_csv`: the text read, parsed by the CSV codec
/// into `headers` and `rows`; a codec error becomes an I/O error.
pub open spec fn spec_read_csv_done(reply: FsReplyView) -> Result<ExecutionResultView, ErrorView> {
    match reply {
        FsReplyView::Text(c) => match csv_parse_of(c) {
            Ok(hr) => Ok(
                ok_result(
                    obj2_view("headers"@, str_arr_view(hr.0), "rows"@, rows_view(hr.1)),
                ),
            ),
            Err(m) => Err(ErrorView::Io(m)),
        },
        FsReplyView::IoFailed(m) => Err(ErrorView::Io(m)),
        _ => arbitrary(),
    }
}

/// The outcome of `read_json`: the parsed value itself; a parse error
/// becomes a serialization error.
pub open spec fn spec_read_json_done(reply: FsReplyView) -> Result<
    ExecutionResultView,
    ErrorView,
> {
    match reply {
        FsReplyView::JsonParsed(p) => match p {
            Ok(v) => Ok(ok_result(v)),
            Err(m) => Err(ErrorView::Serialization(m)),
        },
        FsReplyView::IoFailed(m) => Err(ErrorView::Io(m)),
        _ => arbitrary(),
    }
}

/// The outcome of `write`, `write_json`, `write_csv` and `create_dir`:
/// the resolved path, under the `path` key.
pub open spec fn spec_path_done(base: Seq<char>, params: JsonView, reply: FsReplyView) -> Result<
    ExecutionResultView,
    ErrorView,
> {
    match spec_path_param(base, params) {
        Ok(rp) => match reply {
            FsReplyView::Done => Ok(ok_result(obj1_view("path"@, JsonView::Str(rp)))),
            FsReplyView::IoFailed(m) => Err(ErrorView::Io(m)),
            _ => arbitrary(),
        },
        Err(e) => Err(e),
    }
}

/// The outcome of `delete`: success with no output.
pub open spec fn spec_delete_done(reply: FsReplyView) -> Result<ExecutionResultView, ErrorView> {
    match reply {
        FsReplyView::Done => Ok(
            ExecutionResultView { success: true, output: None, error: None },
        ),
        FsReplyView::IoFailed(m) => Err(ErrorView::Io(m)),
        _ => arbitrary(),
    }
}

/// The outcome of `copy` and `move`: both resolved paths, under the
/// `from` and `to` keys.
pub open spec fn spec_transfer_done(base: Seq<char>, params: JsonView, reply: FsReplyView) -> Result<
    ExecutionResultView,
    ErrorView,
> {
    match spec_transfer_params(base, params) {
        Ok(ft) => match reply {
            FsReplyView::Done => Ok(
                ok_result(
                    obj2_view("from"@, JsonView::Str(ft.0), "to"@, JsonView::Str(ft.1)),
                ),
            ),
            FsReplyView::IoFailed(m) => Err(ErrorView::Io(m)),
            _ => arbitrary(),
        },
        Err(e) => Err(e),
    }
}

/// The outcome of `list`: the entry names handed back, in the order
/// they were enumerated, under the `files` key.
pub open spec fn spec_list_done(reply: FsReplyView) -> Result<ExecutionResultView, ErrorView> {
    match reply {
        FsReplyView::Entries(names) => Ok(ok_result(obj1_view("files"@, str_arr_view(names)))),
        FsReplyView::IoFailed(m) => Err(ErrorView::Io(m)),
        _ => arbitrary(),
    }
}

/// The outcome of `exists`: the flag, under the `exists` key.
pub open spec fn spec_exists_done(reply: FsReplyView) -> Result<ExecutionResultView, ErrorView> {
    match reply {
        FsReplyView::Found(b) => Ok(ok_result(obj1_view("exists"@, JsonView::Bool(b)))),
        _ => arbitrary(),
    }
}

/// What `complete` yields: validation, dispatch by operation name, and
/// the per-operation shaping of the reply into an outcome.
pub open spec fn spec_complete(base: Seq<char>, task: TaskView, reply: FsReplyView) -> Result<
    ExecutionResultView,
    ErrorView,
> {
    if task.executor != file_capability_name() {
        Err(wrong_executor_error(task.executor))
    } else if task.operation == "read"@ {
        spec_read_done(reply)
    } else if task.operation == "read_csv"@ {
        spec_read_csv_done(reply)
    } else if task.operation == "read_json"@ {
        spec_read_json_done(reply)
    } else if task.operation == "write"@ {
        spec_path_done(base, task.params, reply)
    } else if task.operation == "delete"@ {
        spec_delete_done(reply)
    } else if task.operation == "move"@ {
        spec_transfer_done(base, task.params, reply)
    } else if task.operation == "copy"@ {
        spec_transfer_done(base, task.params, reply)
    } else if task.operation == "list"@ {
        spec_list_done(reply)
    } else if task.operation == "write_json"@ {
        spec_path_done(base, task.params, reply)
    } else if task.operation == "write_csv"@ {
        spec_path_done(base, task.params, reply)
    } else if task.operation == "create_dir"@ {
        spec_path_done(base, task.params, reply)
    } else if task.operation == "exists"@ {
        spec_exists_done(reply)
    } else {
        Err(unknown_operation_error(task.operation))
    }
}

fn ok_output(v: JsonValue) -> (r: ExecutionResult)
    ensures
        r@ == ok_result(v@),
{
    ExecutionResult { success: true, output: Some(v), error: None }
}

impl FileExecutor {
    fn read_done(reply: FsReply) -> (r: Result<ExecutionResult, Error>)
        requires
            reply@ is Text || reply@ is IoFailed,
        ensures
            res_agrees(r, spec_read_done(reply@)),
    {
        match reply {
            FsReply::Text(c) => Ok(ok_output(obj1("content", JsonValue::Str(c)))),
            FsReply::IoFailed(m) => Err(Error::Io(m)),
            _ => unreached(),
        }
    }

    fn read_csv_done(reply: FsReply) -> (r: Result<ExecutionResult, Error>)
        requires
            reply@ is Text || reply@ is IoFailed,
        ensures
            res_agrees(r, spec_read_csv_done(reply@)),
    {
        match reply {
            FsReply::Text(c) => match csv_decode(c.as_str()) {
                Ok(hr) => {
                    let (headers, rows) = hr;
                    Ok(
                        ok_output(
                            obj2(
                                "headers",
                                str_list_value(headers),
                                "rows",
                                rows_value(rows),
                            ),
                        ),
                    )
                },
                Err(m) => Err(Error::Io(m)),
            },
            FsReply::IoFailed(m) => Err(Error::Io(m)),
            _ => unreached(),
        }
    }

    fn read_json_done(reply: FsReply) -> (r: Result<ExecutionResult, Error>)
        requires
            reply@ is JsonParsed || reply@ is IoFailed,
        ensures
            res_agrees(r, spec_read_json_done(reply@)),
    {
        match reply {
            FsReply::JsonParsed(p) => match p {
                Ok(v) => Ok(ok_output(v)),
                Err(m) => Err(Error::Serialization(m)),
            },
            FsReply::IoFailed(m) => Err(Error::Io(m)),
            _ => unreached(),
        }
    }

    fn path_done(&self, task: &Task, reply: FsReply) -> (r: Result<ExecutionResult, Error>)
        requires
            reply@ is Done || reply@ is IoFailed,
        ensures
            res_agrees(r, spec_path_done(self@, task@.params, reply@)),
    {
        match self.resolved_path_param(task) {
            Ok(rp) => match reply {
                FsReply::Done => Ok(ok_output(obj1("path", JsonValue::Str(rp)))),
                FsReply::IoFailed(m) => Err(Error::Io(m)),
                _ => unreached(),
            },
            Err(e) => Err(e),
        }
    }

    fn delete_done(reply: FsReply) -> (r: Result<ExecutionResult, Error>)
        requires
            reply@ is Done || reply@ is IoFailed,
        ensures
            res_agrees(r, spec_delete_done(reply@)),
    {
        match reply {
            FsReply::Done => Ok(ExecutionResult { success: true, output: None, error: None }),
            FsReply::IoFailed(m) => Err(Error::Io(m)),
            _ => unreached(),
        }
    }

    fn transfer_done(&self, task: &Task, reply: FsReply) -> (r: Result<ExecutionResult, Error>)
        requires
            reply@ is Done || reply@ is IoFailed,
        ensures
            res_agrees(r, spec_transfer_done(self@, task@.params, reply@)),
    {
        match self.transfer_params(task) {
            Ok(ft) => match reply {
                FsReply::Done => Ok(
                    ok_output(
                        obj2("from", JsonValue::Str(ft.0), "to", JsonValue::Str(ft.1)),
                    ),
                ),
                FsReply::IoFailed(m) => Err(Error::Io(m)),
                _ => unreached(),
            },
            Err(e) => Err(e),
        }
    }

    fn list_done(reply: FsReply) -> (r: Result<ExecutionResult, Error>)
        requires
            reply@ is Entries || reply@ is IoFailed,
        ensures
            res_agrees(r, spec_list_done(reply@)),
    {
        match reply {
            FsReply::Entries(names) => Ok(ok_output(obj1("files", str_list_value(names)))),
            FsReply::IoFailed(m) => Err(Error::Io(m)),
            _ => unreached(),
        }
    }

    fn exists_done(reply: FsReply) -> (r: Result<ExecutionResult, Error>)
        requires
            reply@ is Found,
        ensures
            res_agrees(r, spec_exists_done(reply@)),
    {
        match reply {
            FsReply::Found(b) => Ok(ok_output(obj1("exists", JsonValue::Bool(b)))),
            _ => unreached(),
        }
    }

    /// Turn the reply to a task's filesystem action into the task's
    /// outcome: every successful operation yields `success == true`
    /// with its documented output shape, and every I/O failure is
    /// propagated as a typed error, never as a soft outcome.
    #[verifier::rlimit(50)]
    pub fn complete(&self, task: &Task, reply: FsReply) -> (r: Result<ExecutionResult, Error>)
        requires
            reply_fits(task@.operation, reply@),
        ensures
            res_agrees(r, spec_complete(self@, task@, reply@)),
    {
        proof {
            // The operation names are pairwise distinct, but the solver
            // only sees that once the literals are revealed and, for
            // names of equal length, a differing character is pinned.
            reveal_strlit("read");
            reveal_strlit("read_csv");
            reveal_strlit("read_json");
            reveal_strlit("write");
            reveal_strlit("delete");
            reveal_strlit("move");
            reveal_strlit("copy");
            reveal_strlit("list");
            reveal_strlit("write_json");
            reveal_strlit("write_csv");
            reveal_strlit("create_dir");
            reveal_strlit("exists");
            assert("read"@[0] == 'r');
            assert("read_csv"@[0] == 'r');
            assert("read_json"@[0] == 'r');
            assert("write"@[0] == 'w');
            assert("delete"@[0] == 'd');
            assert("move"@[0] == 'm');
            assert("copy"@[0] == 'c');
            assert("list"@[0] == 'l');
            assert("write_json"@[0] == 'w');
            assert("write_csv"@[0] == 'w');
            assert("create_dir"@[0] == 'c');
            assert("exists"@[0] == 'e');
        }
        if let Err(e) = self.validate(task) {
            return Err(e);
        }
        let op = task.operation.as_str();
        if str_eq(op, "read") {
            Self::read_done(reply)
        } else if str_eq(op, "read_csv") {
            Self::read_csv_done(reply)
        } else if str_eq(op, "read_json") {
            Self::read_json_done(reply)
        } else if str_eq(op, "write") {
            self.path_done(task, reply)
        } else if str_eq(op, "delete") {
            Self::delete_done(reply)
        } else if str_eq(op, "move") {
            self.transfer_done(task, reply)
        } else if str_eq(op, "copy") {
            self.transfer_done(task, reply)
        } else if str_eq(op, "list") {
            Self::list_done(reply)
        } else if str_eq(op, "write_json") {
            self.path_done(task, reply)
        } else if str_eq(op, "write_csv") {
            self.path_done(task, reply)
        } else if str_eq(op, "create_dir") {
            self.path_done(task, reply)
        } else if str_eq(op, "exists") {
            Self::exists_done(reply)
        } else {
            Err(Error::InvalidConfig(String::from_str("Unknown operation: ").concat(op)))
        }
    }
}

impl Executor for FileExecutor {
    open spec fn capability_name(&self) -> Seq<char> {
        file_capability_name()
    }

    open spec fn wrong_target_error(&self, executor: Seq<char>) -> ErrorView {
        wrong_executor_error(executor)
    }

    fn name(&self) -> (r: String) {
        String::from_str("file")
    }

    fn validate(&self, task: &Task) -> (r: Result<(), Error>) {
        if str_eq(task.executor.as_str(), "file") {
            Ok(())
        } else {
            let msg = String::from_str("Wrong executor: expected 'file', got '").concat(
                task.executor.as_str(),
            ).concat("'");
            Err(Error::InvalidConfig(msg))
        }
    }
}

} // verus!
