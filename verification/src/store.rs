//! What a database yields against a store that keeps what it is given.
//!
//! The native store is not part of this crate, and nothing here is assumed of
//! it. To say what the binding adds up to, this module describes the simplest
//! honest store, a map from keys to values behind the native interface, and
//! proves what a caller then sees: a value comes back as it went in, a key
//! without a value reads as absent, and so does a key that was removed.

use vstd::prelude::*;
use crate::call::{CallView, OutputView, ReplyView, StepView};
use crate::error::ErrorView;
use crate::protocol::{begin, step, DatabaseView, Request};
use crate::record::AmdbResult;
use crate::status::{STATUS_NOT_FOUND, STATUS_OK};

verus! {

/// A store that keeps what it is given.
///
/// It has no history: a read sees the present entries, whatever version it
/// selects. What an honest store is free to choose is left open: where it puts
/// its buffers, how it hashes its state, what it says of a status code, and with
/// which status it answers the removal of a key that has no value.
pub struct Store {
    /// The value of each key that has one.
    pub entries: Map<Seq<u8>, Seq<u8>>,
    /// The bytes in the buffer that the last read lent out; none once the
    /// record is released.
    pub buffer: Seq<u8>,
    /// The address of its buffers.
    pub place: usize,
    /// The session that it opens.
    pub session: usize,
    /// The root hash of a state.
    pub digest: spec_fn(Map<Seq<u8>, Seq<u8>>) -> Seq<u8>,
    /// The message for a status code, where it has one.
    pub text: spec_fn(i32) -> Option<Seq<char>>,
    /// The status with which it answers the removal of a key without a value.
    pub missing: i32,
}

impl Store {
    /// Whether the store can stand behind the native interface: its buffers
    /// are not at the null address, and the length of each value fits the
    /// length field of a result record.
    pub open spec fn sound(self) -> bool {
        &&& self.place != 0
        &&& forall|key: Seq<u8>| #[trigger]
            self.entries.contains_key(key) ==> self.entries[key].len() <= usize::MAX
    }

    /// The store with other entries.
    pub open spec fn holding(self, entries: Map<Seq<u8>, Seq<u8>>) -> Store {
        Store { entries, ..self }
    }

    /// The store with other bytes in its buffer.
    pub open spec fn lending(self, buffer: Seq<u8>) -> Store {
        Store { buffer, ..self }
    }

    /// The record with which the store hands out `value`: the length of the
    /// value, and the buffer unless the value is empty.
    pub open spec fn record_of(self, value: Seq<u8>) -> AmdbResult {
        AmdbResult {
            status: STATUS_OK,
            error_msg: 0,
            data: if value.len() == 0 {
                0
            } else {
                self.place
            },
            data_len: value.len() as usize,
        }
    }
}

/// The store after `call`, and its reply.
pub open spec fn answer(store: Store, call: CallView) -> (Store, ReplyView) {
    match call {
        CallView::Init { .. } => (store, ReplyView::Init { status: STATUS_OK, handle: store.session }),
        CallView::Put { key, value, .. } => {
            let entries = store.entries.insert(key, value);
            (
                store.holding(entries),
                ReplyView::Put { status: STATUS_OK, root_hash: (store.digest)(entries) },
            )
        },
        CallView::Get { key, .. } => if store.entries.contains_key(key) {
            (
                store.lending(store.entries[key]),
                ReplyView::Get { status: STATUS_OK, record: store.record_of(store.entries[key]) },
            )
        } else {
            (store, ReplyView::Get { status: STATUS_NOT_FOUND, record: AmdbResult::blank() })
        },
        CallView::Delete { key, .. } => if store.entries.contains_key(key) {
            (store.holding(store.entries.remove(key)), ReplyView::Delete { status: STATUS_OK })
        } else {
            (store, ReplyView::Delete { status: store.missing })
        },
        CallView::RootHash { .. } => (
            store,
            ReplyView::RootHash { status: STATUS_OK, root_hash: (store.digest)(store.entries) },
        ),
        CallView::ErrorString { code } => (store, ReplyView::ErrorString { message: (store.text)(code) }),
        CallView::CopyBuffer { .. } => (store, ReplyView::Copied { data: store.buffer }),
        CallView::FreeResult { .. } => (store.lending(Seq::empty()), ReplyView::Freed),
        CallView::Close { .. } => (store, ReplyView::Closed { status: STATUS_OK }),
    }
}

/// The outcome of an operation, or `None` where it is not over.
pub type Outcome = Option<Result<OutputView, ErrorView>>;

/// Carries an operation on from `call`: the store answers each call, the
/// database takes each reply, for at most `budget` calls.
pub open spec fn serve(db: DatabaseView, store: Store, call: CallView, budget: nat) -> (
    DatabaseView,
    Store,
    Outcome,
)
    decreases budget,
{
    if budget == 0 {
        (db, store, None)
    } else {
        let (kept, reply) = answer(store, call);
        match step(db, reply) {
            Some((next, StepView::Done(outcome))) => (next, kept, Some(outcome)),
            Some((next, StepView::Call(more))) => serve(next, kept, more, (budget - 1) as nat),
            None => (db, kept, None),
        }
    }
}

/// The number of native calls that the longest operation takes: a read with
/// its copy and its release.
pub open spec fn longest_operation() -> nat {
    3
}

/// Carries out `request` on `db` against `store`: the database and the store
/// after it, and the outcome. A database that is not ready refuses.
pub open spec fn perform(db: DatabaseView, store: Store, request: Request) -> (
    DatabaseView,
    Store,
    Outcome,
) {
    match begin(db, request) {
        Some((next, call)) => serve(next, store, call, longest_operation()),
        None => (db, store, Some(Err(ErrorView::InvalidState))),
    }
}

/// A value that was put is the value that a read of its key returns.
///
/// The key and the value are any bytes, zero bytes included. The put yields
/// the root hash of the store with the new entry. The one value that does not
/// come back is the empty one: see [`empty_value_reads_as_absent`].
pub proof fn put_then_get_returns_value(
    db: DatabaseView,
    store: Store,
    key: Seq<u8>,
    value: Seq<u8>,
)
    requires
        db.ready(),
        store.sound(),
        0 < value.len() <= usize::MAX,
    ensures
        ({
            let (db1, store1, stored) = perform(db, store, Request::Put { key, value });
            let (db2, store2, read) = perform(db1, store1, Request::Get { key, version: None });
            &&& stored == Some(
                Ok::<OutputView, ErrorView>(
                    OutputView::RootHash((store.digest)(store.entries.insert(key, value))),
                ),
            )
            &&& read == Some(Ok::<OutputView, ErrorView>(OutputView::Value(Some(value))))
            &&& db2 == db
            &&& store2.sound()
        }),
{
    reveal_with_fuel(serve, 4);
    let entries = store.entries.insert(key, value);
    assert(entries.contains_key(key) && entries[key] == value);
}

/// An empty value that was put reads as absent: a record without data stands
/// for no value.
pub proof fn empty_value_reads_as_absent(db: DatabaseView, store: Store, key: Seq<u8>)
    requires
        db.ready(),
        store.sound(),
    ensures
        ({
            let (db1, store1, stored) = perform(
                db,
                store,
                Request::Put { key, value: Seq::empty() },
            );
            let (db2, store2, read) = perform(db1, store1, Request::Get { key, version: None });
            &&& stored is Some
            &&& stored->0 is Ok
            &&& read == Some(Ok::<OutputView, ErrorView>(OutputView::Value(None)))
            &&& db2 == db
        }),
{
    reveal_with_fuel(serve, 4);
    let entries = store.entries.insert(key, Seq::<u8>::empty());
    assert(entries.contains_key(key) && entries[key] == Seq::<u8>::empty());
}

/// A key that has no value reads as absent, which is an answer and no error.
pub proof fn get_of_missing_key_is_absent(db: DatabaseView, store: Store, key: Seq<u8>)
    requires
        db.ready(),
        store.sound(),
        !store.entries.contains_key(key),
    ensures
        ({
            let (db1, store1, read) = perform(db, store, Request::Get { key, version: None });
            &&& read == Some(Ok::<OutputView, ErrorView>(OutputView::Value(None)))
            &&& db1 == db
            &&& store1.entries == store.entries
        }),
{
    reveal_with_fuel(serve, 4);
}

/// A key that was removed reads as absent, whether it had a value before or
/// not, and whatever the store said of the removal.
pub proof fn delete_then_get_is_absent(db: DatabaseView, store: Store, key: Seq<u8>)
    requires
        db.ready(),
        store.sound(),
    ensures
        ({
            let (db1, store1, removed) = perform(db, store, Request::Delete { key });
            let (db2, store2, read) = perform(db1, store1, Request::Get { key, version: None });
            &&& removed is Some
            &&& store.entries.contains_key(key) ==> removed == Some(
                Ok::<OutputView, ErrorView>(OutputView::Deleted),
            )
            &&& read == Some(Ok::<OutputView, ErrorView>(OutputView::Value(None)))
            &&& db2 == db
        }),
{
    reveal_with_fuel(serve, 4);
    assert(!store.entries.remove(key).contains_key(key));
}

/// The root hash accessor yields the hash that the last put returned: both
/// are the hash of the state that the put left behind.
pub proof fn root_hash_is_that_of_last_put(
    db: DatabaseView,
    store: Store,
    key: Seq<u8>,
    value: Seq<u8>,
)
    requires
        db.ready(),
        store.sound(),
    ensures
        ({
            let (db1, store1, stored) = perform(db, store, Request::Put { key, value });
            let (db2, store2, read) = perform(db1, store1, Request::RootHash);
            &&& stored == Some(
                Ok::<OutputView, ErrorView>(
                    OutputView::RootHash((store.digest)(store.entries.insert(key, value))),
                ),
            )
            &&& read == stored
            &&& db2 == db
        }),
{
    reveal_with_fuel(serve, 4);
}

} // verus!
