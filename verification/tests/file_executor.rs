//! End-to-end tests of the filesystem capability: tasks are prepared
//! into requests, the requests are performed against an in-memory
//! filesystem, and the replies are completed into outcomes.

use local_automation::Error;
use local_automation::ExecutionResult;
use local_automation::Executor;
use local_automation::FileExecutor;
use local_automation::FsReply;
use local_automation::FsRequest;
use local_automation::JsonValue;
use local_automation::Task;
use local_automation::TaskStatus;
use std::collections::HashMap;
use std::collections::HashSet;

/// An in-memory filesystem standing in for the real one: a map from
/// resolved path to file bytes, plus the set of created directories.
/// It answers requests the same way the embedding program does with
/// real filesystem calls.
struct SimFs {
    files: HashMap<String, Vec<u8>>,
    dirs: HashSet<String>,
}

fn to_serde(v: &JsonValue) -> serde_json::Value {
    match v {
        JsonValue::Null => serde_json::Value::Null,
        JsonValue::Bool(b) => serde_json::Value::Bool(*b),
        JsonValue::Int(n) => serde_json::Value::Number(serde_json::Number::from(*n)),
        JsonValue::Str(s) => serde_json::Value::String(s.clone()),
        JsonValue::Arr(items) => serde_json::Value::Array(items.iter().map(to_serde).collect()),
        JsonValue::Obj(entries) => {
            let mut map = serde_json::Map::new();
            for (k, v) in entries {
                map.insert(k.clone(), to_serde(v));
            }
            serde_json::Value::Object(map)
        }
    }
}

fn from_serde(v: &serde_json::Value) -> Result<JsonValue, String> {
    match v {
        serde_json::Value::Null => Ok(JsonValue::Null),
        serde_json::Value::Bool(b) => Ok(JsonValue::Bool(*b)),
        serde_json::Value::Number(n) => match n.as_i64() {
            Some(i) => Ok(JsonValue::Int(i)),
            None => Err(format!("unsupported number: {n}")),
        },
        serde_json::Value::String(s) => Ok(JsonValue::Str(s.clone())),
        serde_json::Value::Array(items) => {
            let mut out = Vec::new();
            for item in items {
                out.push(from_serde(item)?);
            }
            Ok(JsonValue::Arr(out))
        }
        serde_json::Value::Object(map) => {
            let mut out = Vec::new();
            for (k, v) in map {
                out.push((k.clone(), from_serde(v)?));
            }
            Ok(JsonValue::Obj(out))
        }
    }
}

impl SimFs {
    fn new() -> SimFs {
        SimFs { files: HashMap::new(), dirs: HashSet::new() }
    }

    fn perform(&mut self, req: FsRequest) -> FsReply {
        match req {
            FsRequest::ReadText { path } => match self.files.get(&path) {
                Some(bytes) => FsReply::Text(String::from_utf8(bytes.clone()).unwrap()),
                None => FsReply::IoFailed(format!("no such file: {path}")),
            },
            FsRequest::ReadJson { path } => match self.files.get(&path) {
                Some(bytes) => {
                    let text = String::from_utf8(bytes.clone()).unwrap();
                    match serde_json::from_str::<serde_json::Value>(&text) {
                        Ok(v) => FsReply::JsonParsed(from_serde(&v)),
                        Err(e) => FsReply::JsonParsed(Err(e.to_string())),
                    }
                }
                None => FsReply::IoFailed(format!("no such file: {path}")),
            },
            FsRequest::WriteText { path, content } => {
                self.files.insert(path, content.into_bytes());
                FsReply::Done
            }
            FsRequest::WriteBytes { path, bytes } => {
                self.files.insert(path, bytes);
                FsReply::Done
            }
            FsRequest::WriteJson { path, data } => {
                let text = serde_json::to_string_pretty(&to_serde(&data)).unwrap();
                self.files.insert(path, text.into_bytes());
                FsReply::Done
            }
            FsRequest::Delete { path } => match self.files.remove(&path) {
                Some(_) => FsReply::Done,
                None => FsReply::IoFailed(format!("no such file: {path}")),
            },
            FsRequest::Copy { from, to } => match self.files.get(&from) {
                Some(bytes) => {
                    let bytes = bytes.clone();
                    self.files.insert(to, bytes);
                    FsReply::Done
                }
                None => FsReply::IoFailed(format!("no such file: {from}")),
            },
            FsRequest::Rename { from, to } => match self.files.remove(&from) {
                Some(bytes) => {
                    self.files.insert(to, bytes);
                    FsReply::Done
                }
                None => FsReply::IoFailed(format!("no such file: {from}")),
            },
            FsRequest::ListDir { path } => {
                let dir = path.strip_suffix("/.").unwrap_or(&path).to_string();
                let prefix = format!("{dir}/");
                let mut names = Vec::new();
                for key in self.files.keys() {
                    if let Some(rest) = key.strip_prefix(&prefix) {
                        if !rest.is_empty() && !rest.contains('/') {
                            names.push(rest.to_string());
                        }
                    }
                }
                FsReply::Entries(names)
            }
            FsRequest::CreateDirAll { path } => {
                self.dirs.insert(path);
                FsReply::Done
            }
            FsRequest::CheckExists { path } => {
                FsReply::Found(self.files.contains_key(&path) || self.dirs.contains(&path))
            }
        }
    }
}

fn execute(fs: &mut SimFs, ex: &FileExecutor, task: &Task) -> Result<ExecutionResult, Error> {
    let req = ex.prepare(task)?;
    let reply = fs.perform(req);
    ex.complete(task, reply)
}

fn obj(entries: Vec<(&str, JsonValue)>) -> JsonValue {
    JsonValue::Obj(entries.into_iter().map(|(k, v)| (k.to_string(), v)).collect())
}

fn s(text: &str) -> JsonValue {
    JsonValue::Str(text.to_string())
}

fn str_arr(items: Vec<&str>) -> JsonValue {
    JsonValue::Arr(items.into_iter().map(s).collect())
}

fn task(operation: &str, params: JsonValue) -> Task {
    Task::new("file".to_string(), operation.to_string(), params)
}

fn output_field(result: &ExecutionResult, key: &str) -> JsonValue {
    match result.output.as_ref().unwrap().get(key) {
        Some(v) => v.deep_clone(),
        None => panic!("missing output field: {key}"),
    }
}

fn expect_str(v: &JsonValue) -> String {
    match v {
        JsonValue::Str(s) => s.clone(),
        other => panic!("expected string, got {other:?}"),
    }
}

fn expect_strings(v: &JsonValue) -> Vec<String> {
    match v {
        JsonValue::Arr(items) => items.iter().map(expect_str).collect(),
        other => panic!("expected array, got {other:?}"),
    }
}

#[test]
fn test_file_read_write() {
    let mut fs = SimFs::new();
    let executor = FileExecutor::new("local-automation-test".to_string());

    let write_task = task("write", obj(vec![("path", s("test.txt")), ("content", s("Hello, World!"))]));
    let result = execute(&mut fs, &executor, &write_task).unwrap();
    assert!(result.success);

    let read_task = task("read", obj(vec![("path", s("test.txt"))]));
    let result = execute(&mut fs, &executor, &read_task).unwrap();
    assert!(result.success);
    assert_eq!(expect_str(&output_field(&result, "content")), "Hello, World!");
}

#[test]
fn test_all_file_operations() {
    let mut fs = SimFs::new();
    let executor = FileExecutor::new("sandbox".to_string());

    // 1. Write file
    let write_task = task("write", obj(vec![("path", s("test.txt")), ("content", s("Hello World"))]));
    let result = execute(&mut fs, &executor, &write_task).unwrap();
    assert!(result.success);

    // 2. Read file
    let read_task = task("read", obj(vec![("path", s("test.txt"))]));
    let read_result = execute(&mut fs, &executor, &read_task).unwrap();
    assert_eq!(expect_str(&output_field(&read_result, "content")), "Hello World");

    // 3. Copy file
    let copy_task = task("copy", obj(vec![("from", s("test.txt")), ("to", s("test_copy.txt"))]));
    execute(&mut fs, &executor, &copy_task).unwrap();

    // 4. Move file
    let move_task = task("move", obj(vec![("from", s("test_copy.txt")), ("to", s("test_moved.txt"))]));
    execute(&mut fs, &executor, &move_task).unwrap();

    // 5. List dir
    let list_task = task("list", obj(vec![("path", s("."))]));
    let list_result = execute(&mut fs, &executor, &list_task).unwrap();
    let files = expect_strings(&output_field(&list_result, "files"));
    assert!(files.iter().any(|f| f == "test.txt"));
    assert!(files.iter().any(|f| f == "test_moved.txt"));

    // 6. Delete files
    let delete_task = task("delete", obj(vec![("path", s("test.txt"))]));
    execute(&mut fs, &executor, &delete_task).unwrap();
    let delete_moved = task("delete", obj(vec![("path", s("test_moved.txt"))]));
    execute(&mut fs, &executor, &delete_moved).unwrap();

    // 7. Write JSON file (as plain text)
    let json_task = task(
        "write",
        obj(vec![("path", s("data.json")), ("content", s(r#"{ "key": "value" }"#))]),
    );
    execute(&mut fs, &executor, &json_task).unwrap();

    // 8. Read JSON file
    let read_json_task = task("read_json", obj(vec![("path", s("data.json"))]));
    let json_result = execute(&mut fs, &executor, &read_json_task).unwrap();
    assert_eq!(expect_str(&output_field(&json_result, "key")), "value");

    // 9. Write CSV file (as plain text)
    let csv_content = "name,age\nAlice,30\nBob,25";
    let csv_task = task("write", obj(vec![("path", s("data.csv")), ("content", s(csv_content))]));
    execute(&mut fs, &executor, &csv_task).unwrap();

    // 10. Read CSV file
    let read_csv_task = task("read_csv", obj(vec![("path", s("data.csv"))]));
    let csv_result = execute(&mut fs, &executor, &read_csv_task).unwrap();
    assert!(csv_result.success);

    let headers = expect_strings(&output_field(&csv_result, "headers"));
    assert_eq!(headers.len(), 2);
    assert_eq!(headers[0], "name");
    assert_eq!(headers[1], "age");

    let rows = match output_field(&csv_result, "rows") {
        JsonValue::Arr(items) => items,
        other => panic!("expected rows array, got {other:?}"),
    };
    assert_eq!(rows.len(), 2);
    assert_eq!(expect_strings(&rows[0]), vec!["Alice", "30"]);
    assert_eq!(expect_strings(&rows[1]), vec!["Bob", "25"]);
}

#[test]
fn csv_round_trip() {
    let mut fs = SimFs::new();
    let executor = FileExecutor::new("sandbox".to_string());

    let write_task = task(
        "write_csv",
        obj(vec![
            ("path", s("data.csv")),
            ("headers", str_arr(vec!["name", "age"])),
            ("rows", JsonValue::Arr(vec![str_arr(vec!["Alice", "30"]), str_arr(vec!["Bob", "25"])])),
        ]),
    );
    let result = execute(&mut fs, &executor, &write_task).unwrap();
    assert!(result.success);
    assert_eq!(expect_str(&output_field(&result, "path")), "sandbox/data.csv");

    // The document on disk is a real CSV rendering, not the inputs
    // handed back unchanged.
    let on_disk = String::from_utf8(fs.files.get("sandbox/data.csv").unwrap().clone()).unwrap();
    assert_eq!(on_disk, "name,age\nAlice,30\nBob,25\n");

    let read_task = task("read_csv", obj(vec![("path", s("data.csv"))]));
    let read_result = execute(&mut fs, &executor, &read_task).unwrap();
    let headers = expect_strings(&output_field(&read_result, "headers"));
    assert_eq!(headers, vec!["name", "age"]);
    let rows = match output_field(&read_result, "rows") {
        JsonValue::Arr(items) => items,
        other => panic!("expected rows array, got {other:?}"),
    };
    assert_eq!(expect_strings(&rows[0]), vec!["Alice", "30"]);
    assert_eq!(expect_strings(&rows[1]), vec!["Bob", "25"]);
}

#[test]
fn csv_unequal_row_rejected() {
    let mut fs = SimFs::new();
    let executor = FileExecutor::new("sandbox".to_string());
    let write_task = task(
        "write_csv",
        obj(vec![
            ("path", s("data.csv")),
            ("headers", str_arr(vec!["name", "age"])),
            ("rows", JsonValue::Arr(vec![str_arr(vec!["Alice"])])),
        ]),
    );
    match execute(&mut fs, &executor, &write_task) {
        Err(Error::Io(_)) => {}
        other => panic!("expected I/O error for unequal row, got {other:?}"),
    }
}

#[test]
fn json_round_trip() {
    let mut fs = SimFs::new();
    let executor = FileExecutor::new("sandbox".to_string());

    let data = obj(vec![("key", s("value"))]);
    let write_task = task("write_json", obj(vec![("path", s("data.json")), ("data", data)]));
    let result = execute(&mut fs, &executor, &write_task).unwrap();
    assert!(result.success);
    assert_eq!(expect_str(&output_field(&result, "path")), "sandbox/data.json");

    let read_task = task("read_json", obj(vec![("path", s("data.json"))]));
    let read_result = execute(&mut fs, &executor, &read_task).unwrap();
    let value = read_result.output.unwrap();
    match &value {
        JsonValue::Obj(entries) => {
            assert_eq!(entries.len(), 1);
            assert_eq!(entries[0].0, "key");
            match &entries[0].1 {
                JsonValue::Str(v) => assert_eq!(v, "value"),
                other => panic!("expected string, got {other:?}"),
            }
        }
        other => panic!("expected object, got {other:?}"),
    }
}

#[test]
fn malformed_json_is_serialization_error() {
    let mut fs = SimFs::new();
    let executor = FileExecutor::new("sandbox".to_string());
    let write_task = task("write", obj(vec![("path", s("bad.json")), ("content", s("{ not json"))]));
    execute(&mut fs, &executor, &write_task).unwrap();
    let read_task = task("read_json", obj(vec![("path", s("bad.json"))]));
    match execute(&mut fs, &executor, &read_task) {
        Err(Error::Serialization(_)) => {}
        other => panic!("expected serialization error, got {other:?}"),
    }
}

#[test]
fn missing_file_is_io_error() {
    let mut fs = SimFs::new();
    let executor = FileExecutor::new("sandbox".to_string());
    let read_task = task("read", obj(vec![("path", s("absent.txt"))]));
    match execute(&mut fs, &executor, &read_task) {
        Err(Error::Io(_)) => {}
        other => panic!("expected I/O error, got {other:?}"),
    }
}

#[test]
fn traversal_rejected_on_every_operation() {
    let executor = FileExecutor::new("sandbox".to_string());
    let single_path_ops =
        ["read", "read_csv", "read_json", "delete", "list", "create_dir", "exists"];
    for op in single_path_ops {
        let t = task(op, obj(vec![("path", s("../escape"))]));
        match executor.prepare(&t) {
            Err(Error::PermissionDenied(msg)) => assert_eq!(msg, "Path traversal not allowed"),
            other => panic!("{op}: expected permission error, got {other:?}"),
        }
    }
    let write_task = task("write", obj(vec![("path", s("a/../b")), ("content", s("x"))]));
    match executor.prepare(&write_task) {
        Err(Error::PermissionDenied(_)) => {}
        other => panic!("expected permission error, got {other:?}"),
    }
    let copy_task = task("copy", obj(vec![("from", s("ok.txt")), ("to", s("../out.txt"))]));
    match executor.prepare(&copy_task) {
        Err(Error::PermissionDenied(_)) => {}
        other => panic!("expected permission error, got {other:?}"),
    }
    let move_task = task("move", obj(vec![("from", s("..")), ("to", s("ok.txt"))]));
    match executor.prepare(&move_task) {
        Err(Error::PermissionDenied(_)) => {}
        other => panic!("expected permission error, got {other:?}"),
    }
}

#[test]
fn validate_checks_executor_name() {
    let executor = FileExecutor::new("sandbox".to_string());
    assert_eq!(executor.name(), "file");

    let good = task("read", obj(vec![("path", s("a.txt"))]));
    assert!(executor.validate(&good).is_ok());

    let bad = Task::new("shell".to_string(), "read".to_string(), obj(vec![("path", s("a.txt"))]));
    match executor.validate(&bad) {
        Err(Error::InvalidConfig(msg)) => {
            assert_eq!(msg, "Wrong executor: expected 'file', got 'shell'");
        }
        other => panic!("expected invalid-configuration error, got {other:?}"),
    }
    match executor.prepare(&bad) {
        Err(Error::InvalidConfig(_)) => {}
        other => panic!("expected invalid-configuration error, got {other:?}"),
    }
}

#[test]
fn unknown_operation_is_named() {
    let executor = FileExecutor::new("sandbox".to_string());
    let t = task("explode", obj(vec![("path", s("a.txt"))]));
    match executor.prepare(&t) {
        Err(Error::InvalidConfig(msg)) => assert_eq!(msg, "Unknown operation: explode"),
        other => panic!("expected invalid-configuration error, got {other:?}"),
    }
}

#[test]
fn missing_parameters_are_invalid_config() {
    let executor = FileExecutor::new("sandbox".to_string());

    let no_content = task("write", obj(vec![("path", s("a.txt"))]));
    match executor.prepare(&no_content) {
        Err(Error::InvalidConfig(msg)) => {
            assert_eq!(msg, "missing or invalid parameter: content");
        }
        other => panic!("expected invalid-configuration error, got {other:?}"),
    }

    let not_an_object = task("read", s("just a string"));
    match executor.prepare(&not_an_object) {
        Err(Error::InvalidConfig(msg)) => assert_eq!(msg, "missing or invalid parameter: path"),
        other => panic!("expected invalid-configuration error, got {other:?}"),
    }

    let bad_headers = task(
        "write_csv",
        obj(vec![
            ("path", s("a.csv")),
            ("headers", JsonValue::Arr(vec![JsonValue::Int(1)])),
            ("rows", JsonValue::Arr(vec![])),
        ]),
    );
    match executor.prepare(&bad_headers) {
        Err(Error::InvalidConfig(msg)) => {
            assert_eq!(msg, "missing or invalid parameter: headers");
        }
        other => panic!("expected invalid-configuration error, got {other:?}"),
    }
}

#[test]
fn exists_reflects_writes_and_create_dir() {
    let mut fs = SimFs::new();
    let executor = FileExecutor::new("sandbox".to_string());

    let probe = task("exists", obj(vec![("path", s("thing.txt"))]));
    let before = execute(&mut fs, &executor, &probe).unwrap();
    match output_field(&before, "exists") {
        JsonValue::Bool(b) => assert!(!b),
        other => panic!("expected flag, got {other:?}"),
    }

    let write_task = task("write", obj(vec![("path", s("thing.txt")), ("content", s("x"))]));
    execute(&mut fs, &executor, &write_task).unwrap();
    let after = execute(&mut fs, &executor, &probe).unwrap();
    match output_field(&after, "exists") {
        JsonValue::Bool(b) => assert!(b),
        other => panic!("expected flag, got {other:?}"),
    }

    let dir_probe = task("exists", obj(vec![("path", s("newdir"))]));
    let before_dir = execute(&mut fs, &executor, &dir_probe).unwrap();
    match output_field(&before_dir, "exists") {
        JsonValue::Bool(b) => assert!(!b),
        other => panic!("expected flag, got {other:?}"),
    }
    let mkdir = task("create_dir", obj(vec![("path", s("newdir"))]));
    let made = execute(&mut fs, &executor, &mkdir).unwrap();
    assert_eq!(expect_str(&output_field(&made, "path")), "sandbox/newdir");
    let after_dir = execute(&mut fs, &executor, &dir_probe).unwrap();
    match output_field(&after_dir, "exists") {
        JsonValue::Bool(b) => assert!(b),
        other => panic!("expected flag, got {other:?}"),
    }
}

#[test]
fn list_reflects_changes_between_calls() {
    let mut fs = SimFs::new();
    let executor = FileExecutor::new("sandbox".to_string());
    let list_task = task("list", obj(vec![("path", s("."))]));

    let write_a = task("write", obj(vec![("path", s("a.txt")), ("content", s("1"))]));
    execute(&mut fs, &executor, &write_a).unwrap();
    let first = execute(&mut fs, &executor, &list_task).unwrap();
    let first_files = expect_strings(&output_field(&first, "files"));
    assert_eq!(first_files, vec!["a.txt"]);

    let write_b = task("write", obj(vec![("path", s("b.txt")), ("content", s("2"))]));
    execute(&mut fs, &executor, &write_b).unwrap();
    let delete_a = task("delete", obj(vec![("path", s("a.txt"))]));
    execute(&mut fs, &executor, &delete_a).unwrap();

    let second = execute(&mut fs, &executor, &list_task).unwrap();
    let second_files = expect_strings(&output_field(&second, "files"));
    assert_eq!(second_files, vec!["b.txt"]);
}

#[test]
fn delete_has_no_output() {
    let mut fs = SimFs::new();
    let executor = FileExecutor::new("sandbox".to_string());
    let write_task = task("write", obj(vec![("path", s("gone.txt")), ("content", s("x"))]));
    execute(&mut fs, &executor, &write_task).unwrap();
    let delete_task = task("delete", obj(vec![("path", s("gone.txt"))]));
    let result = execute(&mut fs, &executor, &delete_task).unwrap();
    assert!(result.success);
    assert!(result.output.is_none());
    assert!(result.error.is_none());
}

#[test]
fn copy_and_move_report_resolved_paths() {
    let mut fs = SimFs::new();
    let executor = FileExecutor::new("sandbox".to_string());
    let write_task = task("write", obj(vec![("path", s("src.txt")), ("content", s("x"))]));
    execute(&mut fs, &executor, &write_task).unwrap();

    let copy_task = task("copy", obj(vec![("from", s("src.txt")), ("to", s("dst.txt"))]));
    let copied = execute(&mut fs, &executor, &copy_task).unwrap();
    assert_eq!(expect_str(&output_field(&copied, "from")), "sandbox/src.txt");
    assert_eq!(expect_str(&output_field(&copied, "to")), "sandbox/dst.txt");

    let move_task = task("move", obj(vec![("from", s("dst.txt")), ("to", s("end.txt"))]));
    let moved = execute(&mut fs, &executor, &move_task).unwrap();
    assert_eq!(expect_str(&output_field(&moved, "from")), "sandbox/dst.txt");
    assert_eq!(expect_str(&output_field(&moved, "to")), "sandbox/end.txt");
}

#[test]
fn resolve_path_join_rules() {
    let plain = FileExecutor::new("base".to_string());
    assert_eq!(plain.resolve_path("x.txt").unwrap(), "base/x.txt");
    let slashed = FileExecutor::new("base/".to_string());
    assert_eq!(slashed.resolve_path("x.txt").unwrap(), "base/x.txt");
    let empty = FileExecutor::new("".to_string());
    assert_eq!(empty.resolve_path("x.txt").unwrap(), "x.txt");
    // The naive check does not catch absolute paths without `..`.
    assert_eq!(plain.resolve_path("/abs/x.txt").unwrap(), "/abs/x.txt");
    match plain.resolve_path("a/../b") {
        Err(e) => {
            assert!(matches!(e, Error::PermissionDenied(_)));
            assert_eq!(e.message(), "Path traversal not allowed");
        }
        other => panic!("expected permission error, got {other:?}"),
    }
}

#[test]
fn extra_parameters_are_ignored() {
    let mut fs = SimFs::new();
    let executor = FileExecutor::new("sandbox".to_string());
    let write_task = task(
        "write",
        obj(vec![
            ("path", s("a.txt")),
            ("content", s("hello")),
            ("unrelated", JsonValue::Int(7)),
        ]),
    );
    let result = execute(&mut fs, &executor, &write_task).unwrap();
    assert!(result.success);
    assert_eq!(fs.files.get("sandbox/a.txt").unwrap(), b"hello");
}

#[test]
fn duplicate_parameter_keys_first_wins() {
    let executor = FileExecutor::new("sandbox".to_string());
    let t = task(
        "read",
        JsonValue::Obj(vec![
            ("path".to_string(), s("first.txt")),
            ("path".to_string(), s("second.txt")),
        ]),
    );
    match executor.prepare(&t).unwrap() {
        FsRequest::ReadText { path } => assert_eq!(path, "sandbox/first.txt"),
        other => panic!("expected a read request, got {other:?}"),
    }
}

#[test]
fn new_task_is_pending_and_untimed() {
    let t = Task::new("file".to_string(), "read".to_string(), obj(vec![("path", s("a.txt"))]));
    assert_eq!(t.executor, "file");
    assert_eq!(t.operation, "read");
    assert_eq!(t.status, TaskStatus::Pending);
    assert!(t.started_at.is_none());
    assert!(t.completed_at.is_none());

    let u = Task::new("file".to_string(), "read".to_string(), JsonValue::Null);
    assert_ne!(t.id, u.id);
}
