//! The handle-owning database object.

use vstd::prelude::*;
use vstd::string::*;
use crate::call::{CallView, NativeCall, NativeReply, Output, Step};
use crate::error::{translate, DbError, ErrorView};
use crate::path::{first_zero_at, has_zero, marshal_path, terminated};
use crate::protocol::{begin, step, AfterRelease, DatabaseView, Phase, Request, LATEST_VERSION};
use crate::record::{AmdbHandle, AmdbResult};
use crate::status::{classify_read, succeeded, StatusClass};

verus! {

#[derive(Debug)]
enum Next {
    Value(Option<Vec<u8>>),
    Failure(i32),
}

#[derive(Debug)]
enum Stage {
    Opening,
    Ready,
    Putting,
    Getting,
    Deleting,
    Hashing,
    Copying { record: AmdbResult },
    Releasing { next: Next },
    Explaining { code: i32 },
    Closing,
    Closed,
}

impl View for Next {
    type V = AfterRelease;

    closed spec fn view(&self) -> AfterRelease {
        match *self {
            Next::Value(value) => AfterRelease::Value(
                match value {
                    Some(bytes) => Some(bytes@),
                    None => None,
                },
            ),
            Next::Failure(code) => AfterRelease::Failure(code),
        }
    }
}

impl View for Stage {
    type V = Phase;

    closed spec fn view(&self) -> Phase {
        match *self {
            Stage::Opening => Phase::Opening,
            Stage::Ready => Phase::Ready,
            Stage::Putting => Phase::Putting,
            Stage::Getting => Phase::Getting,
            Stage::Deleting => Phase::Deleting,
            Stage::Hashing => Phase::Hashing,
            Stage::Copying { record } => Phase::Copying { record },
            Stage::Releasing { next } => Phase::Releasing { next: next@ },
            Stage::Explaining { code } => Phase::Explaining { code },
            Stage::Closing => Phase::Closing,
            Stage::Closed => Phase::Closed,
        }
    }
}

/// One session with the native store.
///
/// The database owns the native handle from the reply that opened the session
/// to the call that closes it, and decides every native call in between. It
/// makes no call itself: each operation hands out the call to perform, and
/// [`Database::resume`] takes the reply and says what follows. While a reply is
/// awaited, and once the session is closed, every request is refused.
#[derive(Debug)]
pub struct Database {
    handle: Option<AmdbHandle>,
    stage: Stage,
}

impl View for Database {
    type V = DatabaseView;

    closed spec fn view(&self) -> DatabaseView {
        DatabaseView {
            handle: match self.handle {
                Some(handle) => Some(handle@),
                None => None,
            },
            phase: self.stage@,
        }
    }
}

/// Whether a request came out as [`begin`] says: accepted, with the database
/// moved on and the call handed out, or refused with the database untouched.
pub open spec fn begun<'a>(
    before: DatabaseView,
    request: Request,
    after: DatabaseView,
    result: Result<NativeCall<'a>, DbError>,
) -> bool {
    match begin(before, request) {
        Some((next, call)) => {
            &&& after == next
            &&& result matches Ok(c)
            &&& c@ == call
        },
        None => {
            &&& after == before
            &&& result matches Err(e)
            &&& e@ is InvalidState
        },
    }
}

impl Database {
    /// Starts opening a session on `data_dir`.
    ///
    /// A path that has no native form is refused at once, before anything is
    /// asked of the native side. Otherwise the initialize call is handed out,
    /// with the path zero-terminated, and the database waits for its reply.
    pub fn new(data_dir: &str) -> (result: Result<(Database, NativeCall<'static>), DbError>)
        ensures
            match result {
                Ok((db, call)) => {
                    &&& !has_zero(data_dir.spec_bytes())
                    &&& db@ == DatabaseView::opening()
                    &&& call@ == (CallView::Init { path: terminated(data_dir.spec_bytes()) })
                },
                Err(error) => error@ matches ErrorView::Encoding { position } && first_zero_at(
                    data_dir.spec_bytes(),
                    position as int,
                ),
            },
    {
        match marshal_path(data_dir) {
            Ok(path) => Ok(
                (Database { handle: None, stage: Stage::Opening }, NativeCall::Init { path }),
            ),
            Err(error) => Err(error),
        }
    }

    /// Whether the database accepts a request.
    pub fn is_ready(&self) -> (ready: bool)
        ensures
            ready == self@.ready(),
    {
        match (&self.stage, &self.handle) {
            (Stage::Ready, Some(_)) => true,
            _ => false,
        }
    }

    /// Whether the database owns a native handle.
    pub fn is_open(&self) -> (open: bool)
        ensures
            open == (self@.handle is Some),
    {
        self.handle.is_some()
    }

    /// Whether the database has no session and waits for none.
    pub fn is_closed(&self) -> (closed: bool)
        ensures
            closed == (self@.phase is Closed),
    {
        match &self.stage {
            Stage::Closed => true,
            _ => false,
        }
    }

    /// Starts storing `value` under `key`.
    ///
    /// A ready database hands out the put call, with the key and the value as
    /// they are, and waits for its reply. Any other database refuses.
    pub fn put<'a>(&mut self, key: &'a [u8], value: &'a [u8]) -> (result: Result<
        NativeCall<'a>,
        DbError,
    >)
        ensures
            result is Ok <==> old(self)@.ready(),
            result matches Ok(call) ==> call@ == (CallView::Put {
                handle: old(self)@.handle->0,
                key: key@,
                value: value@,
            }),
            begun(old(self)@, (Request::Put { key: key@, value: value@ }), final(self)@, result),
    {
        match (&self.stage, &self.handle) {
            (Stage::Ready, Some(handle)) => {
                let call = NativeCall::Put { handle: handle.as_raw(), key, value };
                self.stage = Stage::Putting;
                Ok(call)
            },
            _ => Err(DbError::InvalidState),
        }
    }

    /// Starts reading the value of `key` at `version`, or at the latest version
    /// where none is given.
    ///
    /// A ready database hands out the get call and waits for its reply. Any
    /// other database refuses.
    pub fn get<'a>(&mut self, key: &'a [u8], version: Option<u32>) -> (result: Result<
        NativeCall<'a>,
        DbError,
    >)
        ensures
            result is Ok <==> old(self)@.ready(),
            result matches Ok(call) ==> call@ == (CallView::Get {
                handle: old(self)@.handle->0,
                key: key@,
                version: if version is Some {
                    version->0
                } else {
                    LATEST_VERSION
                },
            }),
            begun(old(self)@, (Request::Get { key: key@, version }), final(self)@, result),
    {
        match (&self.stage, &self.handle) {
            (Stage::Ready, Some(handle)) => {
                let call = NativeCall::Get {
                    handle: handle.as_raw(),
                    key,
                    version: version.unwrap_or(LATEST_VERSION),
                };
                self.stage = Stage::Getting;
                Ok(call)
            },
            _ => Err(DbError::InvalidState),
        }
    }

    /// Starts removing `key`.
    ///
    /// A ready database hands out the delete call and waits for its reply. Any
    /// other database refuses.
    pub fn delete<'a>(&mut self, key: &'a [u8]) -> (result: Result<NativeCall<'a>, DbError>)
        ensures
            result is Ok <==> old(self)@.ready(),
            result matches Ok(call) ==> call@ == (CallView::Delete {
                handle: old(self)@.handle->0,
                key: key@,
            }),
            begun(old(self)@, (Request::Delete { key: key@ }), final(self)@, result),
    {
        match (&self.stage, &self.handle) {
            (Stage::Ready, Some(handle)) => {
                let call = NativeCall::Delete { handle: handle.as_raw(), key };
                self.stage = Stage::Deleting;
                Ok(call)
            },
            _ => Err(DbError::InvalidState),
        }
    }

    /// Starts reading the current root hash.
    ///
    /// A ready database hands out the call of the accessor and waits for its
    /// reply. Any other database refuses.
    pub fn get_root_hash(&mut self) -> (result: Result<NativeCall<'static>, DbError>)
        ensures
            result is Ok <==> old(self)@.ready(),
            result matches Ok(call) ==> call@ == (CallView::RootHash {
                handle: old(self)@.handle->0,
            }),
            begun(old(self)@, Request::RootHash, final(self)@, result),
    {
        match (&self.stage, &self.handle) {
            (Stage::Ready, Some(handle)) => {
                let call = NativeCall::RootHash { handle: handle.as_raw() };
                self.stage = Stage::Hashing;
                Ok(call)
            },
            _ => Err(DbError::InvalidState),
        }
    }

    /// Starts closing the session.
    ///
    /// A ready database gives its handle away inside the close call and owns
    /// none from then on. Any other database refuses: one that waits for a reply
    /// is closed after that reply, and one without a session has nothing to
    /// close. So a handle leaves the database at most once.
    pub fn close(&mut self) -> (result: Result<NativeCall<'static>, DbError>)
        ensures
            result is Ok <==> old(self)@.ready(),
            result matches Ok(call) ==> call@ == (CallView::Close {
                handle: old(self)@.handle->0,
            }) && final(self)@.handle is None,
            begun(old(self)@, Request::Close, final(self)@, result),
    {
        match &self.stage {
            Stage::Ready => match self.handle.take() {
                Some(handle) => {
                    self.stage = Stage::Closing;
                    Ok(NativeCall::Close { handle })
                },
                None => Err(DbError::InvalidState),
            },
            _ => Err(DbError::InvalidState),
        }
    }

    /// Takes the reply to the call that is out and says what follows: the next
    /// call of the operation, or its outcome.
    ///
    /// A call that returned a non-zero status ends in an error with that status
    /// and the message that the native side has for it, which is looked up first.
    /// A read is different in two ways. Its not-found status is an answer, the
    /// absence of a value, and so is a successful read whose record points at no
    /// data. And its record is released on every path, before anything else: at
    /// once where there is nothing to copy, and right after the copy where there
    /// is.
    ///
    /// A reply that does not answer the call that is out is refused, and the
    /// database stays as it is.
    pub fn resume(&mut self, reply: NativeReply) -> (result: Result<Step, DbError>)
        ensures
            match step(old(self)@, reply@) {
                Some((next, then)) => {
                    &&& final(self)@ == next
                    &&& result matches Ok(s)
                    &&& s@ == then
                },
                None => {
                    &&& final(self)@ == old(self)@
                    &&& result matches Err(e)
                    &&& e@ is InvalidState
                },
            },
    {
        let mut stage = Stage::Closed;
        core::mem::swap(&mut self.stage, &mut stage);
        match (stage, reply) {
            (Stage::Opening, NativeReply::Init { status, handle }) => {
                if succeeded(status) {
                    self.handle = Some(AmdbHandle::new(handle));
                    self.stage = Stage::Ready;
                    Ok(Step::Done(Ok(Output::Opened)))
                } else {
                    Ok(self.settle(status, Output::Opened))
                }
            },
            (Stage::Putting, NativeReply::Put { status, root_hash }) => Ok(
                self.settle(status, Output::RootHash(root_hash)),
            ),
            (Stage::Hashing, NativeReply::RootHash { status, root_hash }) => Ok(
                self.settle(status, Output::RootHash(root_hash)),
            ),
            (Stage::Deleting, NativeReply::Delete { status }) => Ok(
                self.settle(status, Output::Deleted),
            ),
            (Stage::Getting, NativeReply::Get { status, record }) => Ok(
                self.receive(status, record),
            ),
            (Stage::Copying { record }, NativeReply::Copied { data }) => {
                if data.len() == record.data_len {
                    self.stage = Stage::Releasing { next: Next::Value(Some(data)) };
                    Ok(Step::Call(NativeCall::FreeResult { record }))
                } else {
                    self.stage = Stage::Copying { record };
                    Err(DbError::InvalidState)
                }
            },
            (Stage::Releasing { next }, NativeReply::Freed) => match next {
                Next::Value(value) => {
                    self.rest();
                    Ok(Step::Done(Ok(Output::Value(value))))
                },
                Next::Failure(code) => {
                    self.stage = Stage::Explaining { code };
                    Ok(Step::Call(NativeCall::ErrorString { code }))
                },
            },
            (Stage::Explaining { code }, NativeReply::ErrorString { message }) => {
                self.rest();
                Ok(Step::Done(Err(translate(code, message))))
            },
            (Stage::Closing, NativeReply::Closed { status }) => {
                self.stage = Stage::Closed;
                Ok(Step::Done(Ok(Output::Closed { status })))
            },
            (stage, _) => {
                self.stage = stage;
                Err(DbError::InvalidState)
            },
        }
    }

    /// Ends the operation: ready where a session is open, closed where none is.
    fn rest(&mut self)
        ensures
            final(self)@ == old(self)@.at_rest(),
    {
        if self.handle.is_some() {
            self.stage = Stage::Ready;
        } else {
            self.stage = Stage::Closed;
        }
    }

    /// Ends an operation whose call returned `status`, or starts the lookup of
    /// the message for a non-zero status.
    fn settle(&mut self, status: i32, output: Output) -> (then: Step)
        ensures
            (final(self)@, then@) == crate::protocol::settle(old(self)@, status, output@),
    {
        if succeeded(status) {
            self.rest();
            Step::Done(Ok(output))
        } else {
            self.stage = Stage::Explaining { code: status };
            Step::Call(NativeCall::ErrorString { code: status })
        }
    }

    /// Decides what a read does with the record that came back.
    fn receive(&mut self, status: i32, record: AmdbResult) -> (then: Step)
        ensures
            (final(self)@, then@) == crate::protocol::receive(old(self)@, status, record),
    {
        let code = if succeeded(status) {
            record.status
        } else {
            status
        };
        match classify_read(code) {
            StatusClass::Success => {
                if record.holds_data() {
                    let call = NativeCall::CopyBuffer { data: record.data, len: record.data_len };
                    self.stage = Stage::Copying { record };
                    Step::Call(call)
                } else {
                    self.stage = Stage::Releasing { next: Next::Value(None) };
                    Step::Call(NativeCall::FreeResult { record })
                }
            },
            StatusClass::Absent => {
                self.stage = Stage::Releasing { next: Next::Value(None) };
                Step::Call(NativeCall::FreeResult { record })
            },
            StatusClass::Failure => {
                self.stage = Stage::Releasing { next: Next::Failure(code) };
                Step::Call(NativeCall::FreeResult { record })
            },
        }
    }
}

} // verus!
