//! The protocol between the database and the native store, as a transition
//! system over mathematical values.
//!
//! A database is in one [`Phase`] at a time. A request moves a ready database
//! into the phase that waits for the request's native call ([`begin`]); each
//! reply moves it on ([`step`]), until the operation is done and the database is
//! ready again, or closed.

use vstd::prelude::*;
use crate::call::{CallView, OutputView, ReplyView, StepView};
use crate::error::native_failure;
use crate::record::AmdbResult;
use crate::status::{read_class, StatusClass, STATUS_OK};

verus! {

/// The version selector that stands for the latest version.
pub const LATEST_VERSION: u32 = 0;

/// What follows the release of a result record.
pub enum AfterRelease {
    /// The read is over and yields this value.
    Value(Option<Seq<u8>>),
    /// The read failed with this status; its message is looked up next.
    Failure(i32),
}

/// Where a database stands.
pub enum Phase {
    /// The initialize call is out.
    Opening,
    /// The session is open and no call is out.
    Ready,
    /// The put call is out.
    Putting,
    /// The get call is out.
    Getting,
    /// The delete call is out.
    Deleting,
    /// The root hash call is out.
    Hashing,
    /// The copy of the buffer of `record` is out; the record is still to be
    /// released.
    Copying { record: AmdbResult },
    /// The release of the result record is out.
    Releasing { next: AfterRelease },
    /// The lookup of the message for `code` is out.
    Explaining { code: i32 },
    /// The close call is out; the handle went with it.
    Closing,
    /// No session: never opened, or closed.
    Closed,
}

/// A database as a mathematical value: the handle it owns, if any, and its phase.
pub struct DatabaseView {
    pub handle: Option<usize>,
    pub phase: Phase,
}

impl DatabaseView {
    /// A database whose initialize call is out.
    pub open spec fn opening() -> DatabaseView {
        DatabaseView { handle: None, phase: Phase::Opening }
    }

    /// Whether the database accepts a request: it owns a handle and waits for
    /// no reply.
    pub open spec fn ready(self) -> bool {
        self.phase is Ready && self.handle is Some
    }

    /// The same database in another phase.
    pub open spec fn at(self, phase: Phase) -> DatabaseView {
        DatabaseView { handle: self.handle, phase }
    }

    /// The phase in which an operation ends: ready where a session is open,
    /// closed where none is.
    pub open spec fn at_rest(self) -> DatabaseView {
        if self.handle is Some {
            self.at(Phase::Ready)
        } else {
            self.at(Phase::Closed)
        }
    }
}

/// What a caller may ask of an open database.
pub enum Request {
    Put { key: Seq<u8>, value: Seq<u8> },
    Get { key: Seq<u8>, version: Option<u32> },
    Delete { key: Seq<u8> },
    RootHash,
    Close,
}

/// The selector passed to the native read: the version asked for, or the
/// latest.
pub open spec fn selector(version: Option<u32>) -> u32 {
    match version {
        Some(v) => v,
        None => LATEST_VERSION,
    }
}

/// The native call that carries out `request` on the session `handle`.
pub open spec fn call_for(handle: usize, request: Request) -> CallView {
    match request {
        Request::Put { key, value } => CallView::Put { handle, key, value },
        Request::Get { key, version } => CallView::Get { handle, key, version: selector(version) },
        Request::Delete { key } => CallView::Delete { handle, key },
        Request::RootHash => CallView::RootHash { handle },
        Request::Close => CallView::Close { handle },
    }
}

/// The phase that waits for the reply to the call of `request`.
pub open spec fn phase_for(request: Request) -> Phase {
    match request {
        Request::Put { .. } => Phase::Putting,
        Request::Get { .. } => Phase::Getting,
        Request::Delete { .. } => Phase::Deleting,
        Request::RootHash => Phase::Hashing,
        Request::Close => Phase::Closing,
    }
}

/// A request on `db`: the database after it and the call to perform, or
/// `None` where the database is not ready. Closing takes the handle out of the
/// database.
pub open spec fn begin(db: DatabaseView, request: Request) -> Option<(DatabaseView, CallView)> {
    if db.ready() {
        Some(
            (
                DatabaseView {
                    handle: if request is Close {
                        None
                    } else {
                        db.handle
                    },
                    phase: phase_for(request),
                },
                call_for(db.handle->0, request),
            ),
        )
    } else {
        None
    }
}

/// The end of an operation with `output`, or the lookup of the message where
/// its call returned a non-zero status.
pub open spec fn settle(db: DatabaseView, status: i32, output: OutputView) -> (
    DatabaseView,
    StepView,
) {
    if status == STATUS_OK {
        (db.at_rest(), StepView::Done(Ok(output)))
    } else {
        (db.at(Phase::Explaining { code: status }), StepView::Call(CallView::ErrorString { code: status }))
    }
}

/// The status that governs a read: that of the call, or, where the call
/// succeeded, that of the record.
pub open spec fn read_status(status: i32, record: AmdbResult) -> i32 {
    if status != STATUS_OK {
        status
    } else {
        record.status
    }
}

/// What a read does with the record that came back. The buffer is copied only
/// where the read succeeded and the record points at data; in every other case
/// the record is released at once, and the read then yields absence or fails.
pub open spec fn receive(db: DatabaseView, status: i32, record: AmdbResult) -> (
    DatabaseView,
    StepView,
) {
    let code = read_status(status, record);
    match read_class(code) {
        StatusClass::Success => if record.has_data() {
            (
                db.at(Phase::Copying { record }),
                StepView::Call(CallView::CopyBuffer { data: record.data, len: record.data_len }),
            )
        } else {
            (
                db.at(Phase::Releasing { next: AfterRelease::Value(None) }),
                StepView::Call(CallView::FreeResult { record }),
            )
        },
        StatusClass::Absent => (
            db.at(Phase::Releasing { next: AfterRelease::Value(None) }),
            StepView::Call(CallView::FreeResult { record }),
        ),
        StatusClass::Failure => (
            db.at(Phase::Releasing { next: AfterRelease::Failure(code) }),
            StepView::Call(CallView::FreeResult { record }),
        ),
    }
}

/// A reply on `db`: the database after it and what the driver does next, or
/// `None` where the reply does not answer the call that is out.
pub open spec fn step(db: DatabaseView, reply: ReplyView) -> Option<(DatabaseView, StepView)> {
    match (db.phase, reply) {
        (Phase::Opening, ReplyView::Init { status, handle }) => Some(
            if status == STATUS_OK {
                (
                    DatabaseView { handle: Some(handle), phase: Phase::Ready },
                    StepView::Done(Ok(OutputView::Opened)),
                )
            } else {
                settle(db, status, OutputView::Opened)
            },
        ),
        (Phase::Putting, ReplyView::Put { status, root_hash }) => Some(
            settle(db, status, OutputView::RootHash(root_hash)),
        ),
        (Phase::Hashing, ReplyView::RootHash { status, root_hash }) => Some(
            settle(db, status, OutputView::RootHash(root_hash)),
        ),
        (Phase::Deleting, ReplyView::Delete { status }) => Some(
            settle(db, status, OutputView::Deleted),
        ),
        (Phase::Getting, ReplyView::Get { status, record }) => Some(receive(db, status, record)),
        (Phase::Copying { record }, ReplyView::Copied { data }) => if data.len()
            == record.data_len {
            Some(
                (
                    db.at(Phase::Releasing { next: AfterRelease::Value(Some(data)) }),
                    StepView::Call(CallView::FreeResult { record }),
                ),
            )
        } else {
            None
        },
        (Phase::Releasing { next }, ReplyView::Freed) => Some(
            match next {
                AfterRelease::Value(value) => (
                    db.at_rest(),
                    StepView::Done(Ok(OutputView::Value(value))),
                ),
                AfterRelease::Failure(code) => (
                    db.at(Phase::Explaining { code }),
                    StepView::Call(CallView::ErrorString { code }),
                ),
            },
        ),
        (Phase::Explaining { code }, ReplyView::ErrorString { message }) => Some(
            (db.at_rest(), StepView::Done(Err(native_failure(code, message)))),
        ),
        (Phase::Closing, ReplyView::Closed { status }) => Some(
            (db.at(Phase::Closed), StepView::Done(Ok(OutputView::Closed { status }))),
        ),
        _ => None,
    }
}

/// Whether `output` is what `request` yields where it succeeds.
pub open spec fn fits(request: Request, output: OutputView) -> bool {
    match request {
        Request::Put { .. } | Request::RootHash => output is RootHash,
        Request::Get { .. } => output is Value,
        Request::Delete { .. } => output is Deleted,
        Request::Close => output is Closed,
    }
}

/// Whether `then`, where it ends the operation that `request` began on
/// `before`, ends it well: with an output that fits the request, and with the
/// database at rest on the session it had, or without one after a close.
pub open spec fn ends_well(
    before: DatabaseView,
    request: Request,
    after: DatabaseView,
    then: StepView,
) -> bool {
    then matches StepView::Done(outcome) ==> {
        &&& outcome matches Ok(output) ==> fits(request, output)
        &&& after == if request is Close {
            DatabaseView { handle: None, phase: Phase::Closed }
        } else {
            before
        }
    }
}

/// Every operation is over by the third reply, it yields what was asked for,
/// and it leaves the database at rest.
///
/// Take a ready database, any request, and whatever the native side replies.
/// The first reply ends the operation or leads to a second call, that one's
/// reply ends it or leads to a third, and the third reply ends it. Whenever
/// it ends, a success carries the output that fits the request, and the
/// database is ready again, or closed where the request was to close.
pub proof fn operation_ends_by_third_reply(
    db: DatabaseView,
    request: Request,
    first: ReplyView,
    second: ReplyView,
    third: ReplyView,
)
    requires
        db.ready(),
    ensures
        match begin(db, request) {
            None => false,
            Some((waiting, _)) => step(waiting, first) matches Some((after_first, then)) ==> {
                &&& ends_well(db, request, after_first, then)
                &&& then is Call ==> (step(after_first, second) matches Some(
                    (after_second, then),
                ) ==> {
                    &&& ends_well(db, request, after_second, then)
                    &&& then is Call ==> (step(after_second, third) matches Some(
                        (after_third, then),
                    ) ==> {
                        &&& then is Done
                        &&& ends_well(db, request, after_third, then)
                    })
                })
            },
        },
{
}

/// Opening is over by the second reply.
///
/// Where the initialize call succeeds, its reply opens the session: the
/// database owns the handle and is ready. Where it fails, the message for its
/// status is looked up, and the reply to that ends the opening with an error
/// that carries the status; the database then has no session and is closed.
pub proof fn opening_ends_by_second_reply(status: i32, handle: usize, message: Option<Seq<char>>)
    ensures
        status == STATUS_OK ==> step(
            DatabaseView::opening(),
            (ReplyView::Init { status, handle }),
        ) == Some(
            (
                DatabaseView { handle: Some(handle), phase: Phase::Ready },
                StepView::Done(Ok(OutputView::Opened)),
            ),
        ),
        status != STATUS_OK ==> ({
            &&& step(DatabaseView::opening(), (ReplyView::Init { status, handle })) matches Some(
                (waiting, then),
            )
            &&& then == StepView::Call(CallView::ErrorString { code: status })
            &&& step(waiting, (ReplyView::ErrorString { message })) == Some(
                (
                    DatabaseView { handle: None, phase: Phase::Closed },
                    StepView::Done(Err(native_failure(status, message))),
                ),
            )
        }),
{
}

} // verus!
