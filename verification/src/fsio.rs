//! The filesystem action/event exchange.  The library never touches the
//! filesystem itself: the capability turns a task into one [`FsRequest`],
//! the embedding program performs it and hands back one [`FsReply`], and
//! the capability turns that reply into the task's outcome.

use vstd::prelude::*;
use crate::json::JsonValue;
use crate::json::JsonView;

verus! {

/// One filesystem action, with every path already resolved against the
/// sandbox root.  For `WriteJson` the performer serializes `data` as
/// pretty-printed text before writing; everything else is performed
/// literally.
#[derive(Debug)]
pub enum FsRequest {
    ReadText { path: String },
    ReadJson { path: String },
    WriteText { path: String, content: String },
    WriteBytes { path: String, bytes: Vec<u8> },
    WriteJson { path: String, data: JsonValue },
    Delete { path: String },
    Copy { from: String, to: String },
    Rename { from: String, to: String },
    ListDir { path: String },
    CreateDirAll { path: String },
    CheckExists { path: String },
}

/// The mathematical shape of an [`FsRequest`].
pub enum FsRequestView {
    ReadText { path: Seq<char> },
    ReadJson { path: Seq<char> },
    WriteText { path: Seq<char>, content: Seq<char> },
    WriteBytes { path: Seq<char>, bytes: Seq<u8> },
    WriteJson { path: Seq<char>, data: JsonView },
    Delete { path: Seq<char> },
    Copy { from: Seq<char>, to: Seq<char> },
    Rename { from: Seq<char>, to: Seq<char> },
    ListDir { path: Seq<char> },
    CreateDirAll { path: Seq<char> },
    CheckExists { path: Seq<char> },
}

impl View for FsRequest {
    type V = FsRequestView;

    open spec fn view(&self) -> FsRequestView {
        match self {
            FsRequest::ReadText { path } => FsRequestView::ReadText { path: path@ },
            FsRequest::ReadJson { path } => FsRequestView::ReadJson { path: path@ },
            FsRequest::WriteText { path, content } => FsRequestView::WriteText {
                path: path@,
                content: content@,
            },
            FsRequest::WriteBytes { path, bytes } => FsRequestView::WriteBytes {
                path: path@,
                bytes: bytes@,
            },
            FsRequest::WriteJson { path, data } => FsRequestView::WriteJson {
                path: path@,
                data: data@,
            },
            FsRequest::Delete { path } => FsRequestView::Delete { path: path@ },
            FsRequest::Copy { from, to } => FsRequestView::Copy { from: from@, to: to@ },
            FsRequest::Rename { from, to } => FsRequestView::Rename { from: from@, to: to@ },
            FsRequest::ListDir { path } => FsRequestView::ListDir { path: path@ },
            FsRequest::CreateDirAll { path } => FsRequestView::CreateDirAll { path: path@ },
            FsRequest::CheckExists { path } => FsRequestView::CheckExists { path: path@ },
        }
    }
}

/// What the performed action yielded.  `IoFailed` carries the underlying
/// I/O error's message; `JsonParsed` carries the outcome of parsing the
/// file read for a `ReadJson` request.
#[derive(Debug)]
pub enum FsReply {
    Done,
    Text(String),
    JsonParsed(Result<JsonValue, String>),
    Entries(Vec<String>),
    Found(bool),
    IoFailed(String),
}

/// The mathematical shape of an [`FsReply`].
pub enum FsReplyView {
    Done,
    Text(Seq<char>),
    JsonParsed(Result<JsonView, Seq<char>>),
    Entries(Seq<Seq<char>>),
    Found(bool),
    IoFailed(Seq<char>),
}

impl View for FsReply {
    type V = FsReplyView;

    open spec fn view(&self) -> FsReplyView {
        match self {
            FsReply::Done => FsReplyView::Done,
            FsReply::Text(s) => FsReplyView::Text(s@),
            FsReply::JsonParsed(r) => FsReplyView::JsonParsed(
                match r {
                    Ok(v) => Ok(v@),
                    Err(m) => Err(m@),
                },
            ),
            FsReply::Entries(names) => FsReplyView::Entries(names.deep_view()),
            FsReply::Found(b) => FsReplyView::Found(*b),
            FsReply::IoFailed(m) => FsReplyView::IoFailed(m@),
        }
    }
}

} // verus!
