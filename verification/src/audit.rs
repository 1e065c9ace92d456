//! An audit of the foreign resources over every run of a database.
//!
//! The native side owns two kinds of resource: the session behind a handle,
//! and the buffer behind a result record. A [`Ledger`] keeps book of them as
//! the native side would: which session is open, and which record is out on
//! loan. [`observe`] brings the ledger up to date over one exchange and fails
//! where the database asks for something that the ledger forbids: a call on
//! a session that is not open, a second close, a copy from a buffer that is
//! not on loan, the release of a record that is not on loan, or the end of
//! an operation with a record still on loan.
//!
//! [`every_run_is_safe`] states that no run of a database ever fails the
//! audit, whatever the caller asks and whatever the native side replies.

use vstd::prelude::*;
use crate::call::{CallView, ReplyView, StepView};
use crate::error::ErrorView;
use crate::protocol::{begin, step, AfterRelease, DatabaseView, Phase, Request};
use crate::record::AmdbResult;
use crate::status::{read_class, STATUS_OK};

verus! {

/// What a driver hands to a database: a request of the caller, or the reply to
/// the call that is out.
pub enum Input {
    Ask(Request),
    Tell(ReplyView),
}

/// One exchange: the database after `input`, and what it hands back. `None`
/// stands for a refusal, which leaves the database as it was.
pub open spec fn feed(db: DatabaseView, input: Input) -> (DatabaseView, Option<StepView>) {
    match input {
        Input::Ask(request) => match begin(db, request) {
            Some((next, call)) => (next, Some(StepView::Call(call))),
            None => (db, None),
        },
        Input::Tell(reply) => match step(db, reply) {
            Some((next, then)) => (next, Some(then)),
            None => (db, None),
        },
    }
}

/// The native session, as the native side sees it.
pub enum Session {
    /// No initialize call has succeeded.
    Unopened,
    /// The session behind this handle is open.
    Open(usize),
    /// The session was closed; its handle is dead.
    Closed,
}

/// A result record on loan: the status of the read that filled it in, and the
/// record.
pub struct Loan {
    pub status: i32,
    pub record: AmdbResult,
}

/// The foreign resources that are alive.
pub struct Ledger {
    pub session: Session,
    pub loan: Option<Loan>,
}

impl Ledger {
    /// The ledger before anything happened.
    pub open spec fn fresh() -> Ledger {
        Ledger { session: Session::Unopened, loan: None }
    }

    /// Whether a call on the session `handle` is in order: that session is
    /// open, and no record is on loan.
    pub open spec fn admits(self, handle: usize) -> bool {
        self.session == Session::Open(handle) && self.loan is None
    }
}

/// The ledger after the native side produced `reply`, or `None` where the
/// reply brings a resource that the ledger has no room for.
pub open spec fn credit(ledger: Ledger, reply: ReplyView) -> Option<Ledger> {
    match reply {
        ReplyView::Init { status, handle } => if status != STATUS_OK {
            Some(ledger)
        } else if ledger.session is Unopened {
            Some(Ledger { session: Session::Open(handle), loan: ledger.loan })
        } else {
            None
        },
        ReplyView::Get { status, record } => if ledger.loan is None {
            Some(Ledger { session: ledger.session, loan: Some(Loan { status, record }) })
        } else {
            None
        },
        _ => Some(ledger),
    }
}

/// The ledger after the database handed back `then`, or `None` where the
/// ledger forbids it.
pub open spec fn debit(ledger: Ledger, then: StepView) -> Option<Ledger> {
    match then {
        StepView::Call(call) => match call {
            CallView::Init { .. } => if ledger.session is Unopened {
                Some(ledger)
            } else {
                None
            },
            CallView::Put { handle, .. } => if ledger.admits(handle) {
                Some(ledger)
            } else {
                None
            },
            CallView::Get { handle, .. } => if ledger.admits(handle) {
                Some(ledger)
            } else {
                None
            },
            CallView::Delete { handle, .. } => if ledger.admits(handle) {
                Some(ledger)
            } else {
                None
            },
            CallView::RootHash { handle } => if ledger.admits(handle) {
                Some(ledger)
            } else {
                None
            },
            CallView::Close { handle } => if ledger.admits(handle) {
                Some(Ledger { session: Session::Closed, loan: None })
            } else {
                None
            },
            CallView::ErrorString { .. } => Some(ledger),
            CallView::CopyBuffer { data, len } => if ledger.loan matches Some(loan)
                && loan.status == STATUS_OK && loan.record.status == STATUS_OK
                && loan.record.has_data() && loan.record.data == data && loan.record.data_len
                == len {
                Some(ledger)
            } else {
                None
            },
            CallView::FreeResult { record } => if ledger.loan matches Some(loan) && loan.record
                == record {
                Some(Ledger { session: ledger.session, loan: None })
            } else {
                None
            },
        },
        StepView::Done(_) => if ledger.loan is None {
            Some(ledger)
        } else {
            None
        },
    }
}

/// The ledger after one exchange, or `None` where the exchange breaks the
/// discipline. A refusal changes nothing. Of an accepted reply, the ledger
/// first books what the native side produced, then what the database asks
/// for next.
pub open spec fn observe(ledger: Ledger, input: Input, handed_back: Option<StepView>) -> Option<
    Ledger,
> {
    match handed_back {
        None => Some(ledger),
        Some(then) => match input {
            Input::Ask(_) => debit(ledger, then),
            Input::Tell(reply) => match credit(ledger, reply) {
                Some(credited) => debit(credited, then),
                None => None,
            },
        },
    }
}

/// Whether the run of `inputs` from `db`, with the foreign resources as in
/// `ledger`, keeps the discipline at every exchange.
pub open spec fn audit(db: DatabaseView, ledger: Ledger, inputs: Seq<Input>) -> bool
    decreases inputs.len(),
{
    if inputs.len() == 0 {
        true
    } else {
        let (next, handed_back) = feed(db, inputs[0]);
        match observe(ledger, inputs[0], handed_back) {
            Some(booked) => audit(next, booked, inputs.drop_first()),
            None => false,
        }
    }
}

/// Whether the database and the ledger tell the same story: the database
/// owns a handle exactly while that session is open, and a record is on loan
/// exactly while the database waits for the copy of its buffer.
pub open spec fn agrees(db: DatabaseView, ledger: Ledger) -> bool {
    match db.phase {
        Phase::Opening => db.handle is None && ledger == Ledger::fresh(),
        Phase::Ready | Phase::Putting | Phase::Getting | Phase::Deleting
        | Phase::Hashing => db.handle is Some && ledger.admits(db.handle->0),
        Phase::Releasing { next } => {
            &&& db.handle is Some
            &&& ledger.admits(db.handle->0)
            &&& next matches AfterRelease::Failure(code) ==> read_class(code) is Failure
        },
        Phase::Copying { record } => {
            &&& db.handle is Some
            &&& ledger.session == Session::Open(db.handle->0)
            &&& ledger.loan == Some(Loan { status: STATUS_OK, record })
            &&& record.status == STATUS_OK
            &&& record.has_data()
        },
        Phase::Explaining { code } => {
            &&& code != STATUS_OK
            &&& ledger.loan is None
            &&& match db.handle {
                Some(handle) => ledger.session == Session::Open(handle),
                None => ledger.session is Unopened,
            }
        },
        Phase::Closing => db.handle is None && ledger == (Ledger {
            session: Session::Closed,
            loan: None,
        }),
        Phase::Closed => db.handle is None && !(ledger.session is Open) && ledger.loan is None,
    }
}

/// One exchange keeps the discipline and leaves the database and the ledger
/// in agreement, if they agreed before.
pub proof fn exchange_keeps_agreement(db: DatabaseView, ledger: Ledger, input: Input)
    requires
        agrees(db, ledger),
    ensures
        observe(ledger, input, feed(db, input).1) matches Some(booked) && agrees(
            feed(db, input).0,
            booked,
        ),
{
}

/// An operation fails only with the status of a failed native call: the error
/// that ends it is a native error whose code is not the success status.
pub proof fn failures_carry_a_failure_status(db: DatabaseView, ledger: Ledger, reply: ReplyView)
    requires
        agrees(db, ledger),
    ensures
        step(db, reply) matches Some((_, StepView::Done(Err(error)))) ==> error
            matches ErrorView::Native { code, .. } && code != STATUS_OK,
{
}

/// A run from a database and a ledger that agree keeps the discipline at
/// every exchange.
pub proof fn agreement_is_safe(db: DatabaseView, ledger: Ledger, inputs: Seq<Input>)
    requires
        agrees(db, ledger),
    ensures
        audit(db, ledger, inputs),
    decreases inputs.len(),
{
    if inputs.len() > 0 {
        exchange_keeps_agreement(db, ledger, inputs[0]);
        let (next, handed_back) = feed(db, inputs[0]);
        let booked = observe(ledger, inputs[0], handed_back)->0;
        agreement_is_safe(next, booked, inputs.drop_first());
    }
}

/// No run of a database breaks the discipline of the foreign resources.
///
/// Take a database that was just made and let a driver feed it anything:
/// requests in any order, sensible or not, and replies of any content. Then
/// at every exchange: a call on a session is asked for only while that session
/// is open and no record is on loan; the close call is asked for at most once,
/// and nothing is asked of the session after it; a buffer is copied only while
/// its record is on loan, and only where the read succeeded and the record
/// points at data; a record is released only while it is on loan, hence once;
/// and no operation ends with a record on loan.
pub proof fn every_run_is_safe(inputs: Seq<Input>)
    ensures
        audit(DatabaseView::opening(), Ledger::fresh(), inputs),
{
    agreement_is_safe(DatabaseView::opening(), Ledger::fresh(), inputs);
}

} // verus!
