//! The vocabulary between the database and its driver: the native calls that the
//! database asks for, the replies that the driver reports, and what an operation
//! yields in the end.

use vstd::prelude::*;
use crate::error::{DbError, ErrorView};
use crate::record::{AmdbHandle, AmdbResult};
use crate::status::RootHash;

verus! {

/// A native call for the driver to perform, with exactly the arguments to pass.
///
/// Keys and values travel as a pointer and a length; they may hold any byte,
/// zero included. Only the path of `Init` is zero-terminated.
#[derive(Debug, PartialEq, Eq)]
#[allow(inconsistent_fields)]
pub enum NativeCall<'a> {
    /// Initialize a session on the zero-terminated `path`.
    Init { path: Vec<u8> },
    /// Store `value` under `key`.
    Put { handle: usize, key: &'a [u8], value: &'a [u8] },
    /// Read the value of `key` at `version`; zero selects the latest version.
    Get { handle: usize, key: &'a [u8], version: u32 },
    /// Remove `key`.
    Delete { handle: usize, key: &'a [u8] },
    /// Read the current root hash.
    RootHash { handle: usize },
    /// Look up the message for a status code.
    ErrorString { code: i32 },
    /// Copy `len` bytes out of the foreign buffer at `data`.
    CopyBuffer { data: usize, len: usize },
    /// Release a result record. The record is handed over for good.
    FreeResult { record: AmdbResult },
    /// Close the session. The handle is handed over for good.
    Close { handle: AmdbHandle },
}

/// A [`NativeCall`] as a mathematical value.
pub enum CallView {
    Init { path: Seq<u8> },
    Put { handle: usize, key: Seq<u8>, value: Seq<u8> },
    Get { handle: usize, key: Seq<u8>, version: u32 },
    Delete { handle: usize, key: Seq<u8> },
    RootHash { handle: usize },
    ErrorString { code: i32 },
    CopyBuffer { data: usize, len: usize },
    FreeResult { record: AmdbResult },
    Close { handle: usize },
}

impl<'a> View for NativeCall<'a> {
    type V = CallView;

    open spec fn view(&self) -> CallView {
        match *self {
            NativeCall::Init { path } => CallView::Init { path: path@ },
            NativeCall::Put { handle, key, value } => CallView::Put {
                handle,
                key: key@,
                value: value@,
            },
            NativeCall::Get { handle, key, version } => CallView::Get { handle, key: key@, version },
            NativeCall::Delete { handle, key } => CallView::Delete { handle, key: key@ },
            NativeCall::RootHash { handle } => CallView::RootHash { handle },
            NativeCall::ErrorString { code } => CallView::ErrorString { code },
            NativeCall::CopyBuffer { data, len } => CallView::CopyBuffer { data, len },
            NativeCall::FreeResult { record } => CallView::FreeResult { record },
            NativeCall::Close { handle } => CallView::Close { handle: handle@ },
        }
    }
}

/// What the driver reports after it performed a native call.
///
/// Outputs of a call are defined only where its status is zero; the status
/// field of a result record is always defined.
#[derive(Debug, PartialEq, Eq)]
pub enum NativeReply {
    /// Initialize returned `status` and wrote `handle`.
    Init { status: i32, handle: usize },
    /// Put returned `status` and wrote `root_hash`.
    Put { status: i32, root_hash: RootHash },
    /// Get returned `status` and filled in `record`.
    Get { status: i32, record: AmdbResult },
    /// Delete returned `status`.
    Delete { status: i32 },
    /// The root hash accessor returned `status` and wrote `root_hash`.
    RootHash { status: i32, root_hash: RootHash },
    /// The message for the code, or `None` where the accessor's answer could
    /// not be read.
    ErrorString { message: Option<String> },
    /// The bytes copied out of the foreign buffer.
    Copied { data: Vec<u8> },
    /// The result record was released.
    Freed,
    /// Close returned `status`.
    Closed { status: i32 },
}

/// A [`NativeReply`] as a mathematical value.
pub enum ReplyView {
    Init { status: i32, handle: usize },
    Put { status: i32, root_hash: Seq<u8> },
    Get { status: i32, record: AmdbResult },
    Delete { status: i32 },
    RootHash { status: i32, root_hash: Seq<u8> },
    ErrorString { message: Option<Seq<char>> },
    Copied { data: Seq<u8> },
    Freed,
    Closed { status: i32 },
}

impl View for NativeReply {
    type V = ReplyView;

    open spec fn view(&self) -> ReplyView {
        match *self {
            NativeReply::Init { status, handle } => ReplyView::Init { status, handle },
            NativeReply::Put { status, root_hash } => ReplyView::Put {
                status,
                root_hash: root_hash@,
            },
            NativeReply::Get { status, record } => ReplyView::Get { status, record },
            NativeReply::Delete { status } => ReplyView::Delete { status },
            NativeReply::RootHash { status, root_hash } => ReplyView::RootHash {
                status,
                root_hash: root_hash@,
            },
            NativeReply::ErrorString { message } => ReplyView::ErrorString {
                message: match message {
                    Some(text) => Some(text@),
                    None => None,
                },
            },
            NativeReply::Copied { data } => ReplyView::Copied { data: data@ },
            NativeReply::Freed => ReplyView::Freed,
            NativeReply::Closed { status } => ReplyView::Closed { status },
        }
    }
}

/// What a completed operation yields.
#[derive(Debug, Clone, PartialEq, Eq)]
pub enum Output {
    /// The session is open.
    Opened,
    /// The root hash of the store: after a put, or as the accessor read it.
    RootHash(RootHash),
    /// The value of the key, or `None` where the key has no value.
    Value(Option<Vec<u8>>),
    /// The key was removed.
    Deleted,
    /// The session is closed. `status` is what the native close returned; it is
    /// worth a log line at most, and the session is gone whatever it says.
    Closed { status: i32 },
}

/// An [`Output`] as a mathematical value.
pub enum OutputView {
    Opened,
    RootHash(Seq<u8>),
    Value(Option<Seq<u8>>),
    Deleted,
    Closed { status: i32 },
}

impl View for Output {
    type V = OutputView;

    open spec fn view(&self) -> OutputView {
        match *self {
            Output::Opened => OutputView::Opened,
            Output::RootHash(hash) => OutputView::RootHash(hash@),
            Output::Value(value) => OutputView::Value(
                match value {
                    Some(bytes) => Some(bytes@),
                    None => None,
                },
            ),
            Output::Deleted => OutputView::Deleted,
            Output::Closed { status } => OutputView::Closed { status },
        }
    }
}

/// What the driver does next.
#[derive(Debug, PartialEq, Eq)]
pub enum Step {
    /// Perform this call and report its reply.
    Call(NativeCall<'static>),
    /// The operation is over, with this outcome.
    Done(Result<Output, DbError>),
}

/// A [`Step`] as a mathematical value.
pub enum StepView {
    Call(CallView),
    Done(Result<OutputView, ErrorView>),
}

impl View for Step {
    type V = StepView;

    open spec fn view(&self) -> StepView {
        match *self {
            Step::Call(call) => StepView::Call(call@),
            Step::Done(outcome) => StepView::Done(
                match outcome {
                    Ok(output) => Ok(output@),
                    Err(error) => Err(error@),
                },
            ),
        }
    }
}

} // verus!
