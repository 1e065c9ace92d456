//! The database driven against a stand-in for the native store.
//!
//! The stand-in keeps its entries in a map and its read buffers in a table of
//! their own. Releasing a record poisons its buffer, and any later copy from
//! that buffer, or a second release, panics.

use amdb::call::{NativeCall, NativeReply, Output, Step};
use amdb::database::Database;
use amdb::error::DbError;
use amdb::record::AmdbResult;
use amdb::status::STATUS_NOT_FOUND;
use std::collections::BTreeMap;

const SESSION: usize = 0x5e55;

struct FakeStore {
    entries: BTreeMap<Vec<u8>, Vec<u8>>,
    /// Buffer `i` lives at address `16 * (i + 1)`; `None` once released.
    buffers: Vec<Option<Vec<u8>>>,
    open: bool,
    /// A status to answer the next store call with, in place of doing it.
    fail_with: Option<i32>,
    /// A record to answer the next read with, in place of doing it.
    read_with: Option<(i32, AmdbResult)>,
    messages: BTreeMap<i32, String>,
    close_status: i32,
    log: Vec<&'static str>,
    paths: Vec<Vec<u8>>,
}

impl FakeStore {
    fn new() -> FakeStore {
        let mut messages = BTreeMap::new();
        messages.insert(-1, String::from("invalid argument"));
        messages.insert(-5, String::from("io failure"));
        FakeStore {
            entries: BTreeMap::new(),
            buffers: Vec::new(),
            open: false,
            fail_with: None,
            read_with: None,
            messages,
            close_status: 0,
            log: Vec::new(),
            paths: Vec::new(),
        }
    }

    fn root_hash(&self) -> [u8; 32] {
        let mut state: u64 = 0xcbf2_9ce4_8422_2325;
        for (key, value) in &self.entries {
            for byte in key.iter().chain([0xffu8].iter()).chain(value.iter()).chain([0xfeu8].iter()) {
                state ^= u64::from(*byte);
                state = state.wrapping_mul(0x0000_0100_0000_01b3);
            }
        }
        let mut hash = [0u8; 32];
        for (i, byte) in hash.iter_mut().enumerate() {
            *byte = state.rotate_left(i as u32).to_le_bytes()[i % 8];
        }
        hash
    }

    fn lend(&mut self, bytes: Vec<u8>) -> AmdbResult {
        if bytes.is_empty() {
            return AmdbResult { status: 0, error_msg: 0, data: 0, data_len: 0 };
        }
        self.buffers.push(Some(bytes.clone()));
        AmdbResult { status: 0, error_msg: 0, data: 16 * self.buffers.len(), data_len: bytes.len() }
    }

    fn live(&self) -> usize {
        self.buffers.iter().filter(|buffer| buffer.is_some()).count()
    }

    fn count(&self, name: &str) -> usize {
        self.log.iter().filter(|entry| **entry == name).count()
    }

    fn on_session(&self, handle: usize) {
        assert!(self.open, "call on a session that is not open");
        assert_eq!(handle, SESSION, "call on another session");
    }

    fn perform(&mut self, call: NativeCall) -> NativeReply {
        match call {
            NativeCall::Init { path } => {
                self.log.push("init");
                assert_eq!(path.last(), Some(&0u8), "path is not zero-terminated");
                assert!(!path[..path.len() - 1].contains(&0u8), "zero byte inside the path");
                self.paths.push(path);
                match self.fail_with.take() {
                    Some(status) => NativeReply::Init { status, handle: 0 },
                    None => {
                        self.open = true;
                        NativeReply::Init { status: 0, handle: SESSION }
                    },
                }
            },
            NativeCall::Put { handle, key, value } => {
                self.log.push("put");
                self.on_session(handle);
                match self.fail_with.take() {
                    Some(status) => NativeReply::Put { status, root_hash: [0xaa; 32] },
                    None => {
                        self.entries.insert(key.to_vec(), value.to_vec());
                        NativeReply::Put { status: 0, root_hash: self.root_hash() }
                    },
                }
            },
            NativeCall::Get { handle, key, version } => {
                self.log.push("get");
                self.on_session(handle);
                assert_eq!(version, 0, "the stand-in has no history");
                if let Some((status, record)) = self.read_with.take() {
                    return NativeReply::Get { status, record };
                }
                match self.entries.get(key).cloned() {
                    Some(value) => NativeReply::Get { status: 0, record: self.lend(value) },
                    None => NativeReply::Get { status: STATUS_NOT_FOUND, record: AmdbResult::new() },
                }
            },
            NativeCall::Delete { handle, key } => {
                self.log.push("delete");
                self.on_session(handle);
                match self.fail_with.take() {
                    Some(status) => NativeReply::Delete { status },
                    None => {
                        self.entries.remove(key);
                        NativeReply::Delete { status: 0 }
                    },
                }
            },
            NativeCall::RootHash { handle } => {
                self.log.push("root_hash");
                self.on_session(handle);
                match self.fail_with.take() {
                    Some(status) => NativeReply::RootHash { status, root_hash: [0xaa; 32] },
                    None => NativeReply::RootHash { status: 0, root_hash: self.root_hash() },
                }
            },
            NativeCall::ErrorString { code } => {
                self.log.push("error_string");
                NativeReply::ErrorString { message: self.messages.get(&code).cloned() }
            },
            NativeCall::CopyBuffer { data, len } => {
                self.log.push("copy");
                assert!(data != 0 && data % 16 == 0, "copy from a buffer that was never lent");
                let buffer = self.buffers[data / 16 - 1].as_ref().expect("copy after release");
                assert_eq!(buffer.len(), len, "copy of another length than was lent");
                NativeReply::Copied { data: buffer.clone() }
            },
            NativeCall::FreeResult { record } => {
                self.log.push("free");
                if record.data != 0 && record.data % 16 == 0 {
                    let slot = &mut self.buffers[record.data / 16 - 1];
                    assert!(slot.is_some(), "second release");
                    *slot = None;
                }
                NativeReply::Freed
            },
            NativeCall::Close { handle } => {
                self.log.push("close");
                self.on_session(handle.as_raw());
                self.open = false;
                NativeReply::Closed { status: self.close_status }
            },
        }
    }
}

/// Carries an operation through: performs each call, reports each reply.
fn drive(db: &mut Database, store: &mut FakeStore, first: NativeCall) -> Result<Output, DbError> {
    let mut reply = store.perform(first);
    loop {
        match db.resume(reply)? {
            Step::Call(call) => reply = store.perform(call),
            Step::Done(outcome) => return outcome,
        }
    }
}

struct Session {
    db: Database,
    store: FakeStore,
}

impl Session {
    fn open_on(mut store: FakeStore, data_dir: &str) -> Result<Session, DbError> {
        let (mut db, call) = Database::new(data_dir)?;
        match drive(&mut db, &mut store, call)? {
            Output::Opened => Ok(Session { db, store }),
            other => panic!("open yielded {:?}", other),
        }
    }

    fn open(data_dir: &str) -> Result<Session, DbError> {
        Session::open_on(FakeStore::new(), data_dir)
    }

    fn put(&mut self, key: &[u8], value: &[u8]) -> Result<[u8; 32], DbError> {
        let call = self.db.put(key, value)?;
        match drive(&mut self.db, &mut self.store, call)? {
            Output::RootHash(hash) => Ok(hash),
            other => panic!("put yielded {:?}", other),
        }
    }

    fn get(&mut self, key: &[u8], version: Option<u32>) -> Result<Option<Vec<u8>>, DbError> {
        let call = self.db.get(key, version)?;
        match drive(&mut self.db, &mut self.store, call)? {
            Output::Value(value) => Ok(value),
            other => panic!("get yielded {:?}", other),
        }
    }

    fn delete(&mut self, key: &[u8]) -> Result<(), DbError> {
        let call = self.db.delete(key)?;
        match drive(&mut self.db, &mut self.store, call)? {
            Output::Deleted => Ok(()),
            other => panic!("delete yielded {:?}", other),
        }
    }

    fn get_root_hash(&mut self) -> Result<[u8; 32], DbError> {
        let call = self.db.get_root_hash()?;
        match drive(&mut self.db, &mut self.store, call)? {
            Output::RootHash(hash) => Ok(hash),
            other => panic!("root hash yielded {:?}", other),
        }
    }

    fn close(&mut self) -> Result<i32, DbError> {
        let call = self.db.close()?;
        match drive(&mut self.db, &mut self.store, call)? {
            Output::Closed { status } => Ok(status),
            other => panic!("close yielded {:?}", other),
        }
    }
}

#[test]
fn test_database() {
    let mut db = Session::open("./test_data").unwrap();
    let root_hash = db.put(b"key", b"value").unwrap();
    let value = db.get(b"key", None).unwrap();
    assert_eq!(value, Some(b"value".to_vec()));
    assert_eq!(root_hash.len(), 32);
}

#[test]
fn scenario_put_get_overwrite_delete() {
    let mut db = Session::open("./t1").unwrap();
    let h1 = db.put(b"k", b"v1").unwrap();
    assert_eq!(db.get(b"k", None).unwrap(), Some(b"v1".to_vec()));
    let h2 = db.put(b"k", b"v2").unwrap();
    assert_ne!(h2, h1);
    assert_eq!(db.get(b"k", None).unwrap(), Some(b"v2".to_vec()));
    assert_eq!(db.delete(b"k"), Ok(()));
    assert_eq!(db.get(b"k", None).unwrap(), None);
}

#[test]
fn open_hands_out_the_terminated_path() {
    let (db, call) = Database::new("./t1").unwrap();
    assert_eq!(call, NativeCall::Init { path: b"./t1\0".to_vec() });
    assert!(!db.is_open());
    assert!(!db.is_ready());
    assert!(!db.is_closed());
}

#[test]
fn open_owns_the_handle_on_success() {
    let db = Session::open("./t1").unwrap();
    assert!(db.db.is_open());
    assert!(db.db.is_ready());
    assert_eq!(db.store.paths, vec![b"./t1\0".to_vec()]);
    assert_eq!(db.store.log, vec!["init"]);
}

#[test]
fn open_with_zero_byte_fails_before_any_call() {
    let store = FakeStore::new();
    let result = Database::new("data\0dir");
    assert_eq!(result.err(), Some(DbError::Encoding { position: 4 }));
    assert!(store.log.is_empty());
}

#[test]
fn open_reports_the_first_zero_byte() {
    assert_eq!(Database::new("\0a\0").err(), Some(DbError::Encoding { position: 0 }));
    assert_eq!(Database::new("é\0").err(), Some(DbError::Encoding { position: 2 }));
}

#[test]
fn open_of_empty_path_passes_the_terminator_alone() {
    let (_, call) = Database::new("").unwrap();
    assert_eq!(call, NativeCall::Init { path: vec![0u8] });
}

#[test]
fn open_failure_is_translated_and_leaves_no_session() {
    let mut store = FakeStore::new();
    store.fail_with = Some(-5);
    let (mut db, call) = Database::new("./t1").unwrap();
    let outcome = drive(&mut db, &mut store, call);
    assert_eq!(outcome, Err(DbError::Native { code: -5, message: String::from("io failure") }));
    assert!(!db.is_open());
    assert!(db.is_closed());
    assert_eq!(store.log, vec!["init", "error_string"]);
    assert_eq!(db.put(b"k", b"v").err(), Some(DbError::InvalidState));
    assert_eq!(db.close().err(), Some(DbError::InvalidState));
}

#[test]
fn put_passes_key_and_value_with_zero_bytes() {
    let mut db = Session::open("./t1").unwrap();
    let key = [0u8, 1, 0, 2, 0];
    let value = [0u8, 0, 0, 7];
    db.put(&key, &value).unwrap();
    assert_eq!(db.store.entries.get(&key[..]), Some(&value.to_vec()));
    assert_eq!(db.get(&key, None).unwrap(), Some(value.to_vec()));
    assert_eq!(db.get(&key[..1], None).unwrap(), None);
}

#[test]
fn put_with_empty_key_round_trips() {
    let mut db = Session::open("./t1").unwrap();
    db.put(b"", b"value of the empty key").unwrap();
    assert_eq!(db.get(b"", None).unwrap(), Some(b"value of the empty key".to_vec()));
}

#[test]
fn put_of_empty_value_reads_as_absent() {
    let mut db = Session::open("./t1").unwrap();
    db.put(b"k", b"").unwrap();
    assert_eq!(db.store.entries.get(&b"k"[..]), Some(&Vec::new()));
    assert_eq!(db.get(b"k", None).unwrap(), None);
    assert_eq!(db.store.count("copy"), 0);
    assert_eq!(db.store.count("free"), 1);
}

#[test]
fn put_returns_the_hash_that_the_store_wrote() {
    let mut db = Session::open("./t1").unwrap();
    let hash = db.put(b"k", b"v").unwrap();
    assert_eq!(hash, db.store.root_hash());
    assert_eq!(db.get_root_hash().unwrap(), hash);
}

#[test]
fn root_hash_changes_with_each_change_of_state() {
    let mut db = Session::open("./t1").unwrap();
    let empty = db.get_root_hash().unwrap();
    let h1 = db.put(b"a", b"1").unwrap();
    let h2 = db.put(b"b", b"2").unwrap();
    db.delete(b"a").unwrap();
    let h3 = db.get_root_hash().unwrap();
    assert_ne!(h1, empty);
    assert_ne!(h2, h1);
    assert_ne!(h3, h2);
}

#[test]
fn put_failure_is_translated() {
    let mut db = Session::open("./t1").unwrap();
    db.store.fail_with = Some(-1);
    assert_eq!(
        db.put(b"k", b"v"),
        Err(DbError::Native { code: -1, message: String::from("invalid argument") })
    );
    assert!(db.db.is_ready());
    assert_eq!(db.put(b"k", b"v").map(|hash| hash.len()), Ok(32));
}

#[test]
fn put_with_not_found_status_is_an_error() {
    let mut db = Session::open("./t1").unwrap();
    db.store.fail_with = Some(STATUS_NOT_FOUND);
    assert_eq!(
        db.put(b"k", b"v"),
        Err(DbError::Native { code: -2, message: String::from("unknown error") })
    );
}

#[test]
fn unknown_status_falls_back_to_the_fixed_message() {
    let mut db = Session::open("./t1").unwrap();
    db.store.fail_with = Some(i32::MIN);
    assert_eq!(
        db.delete(b"k"),
        Err(DbError::Native { code: i32::MIN, message: String::from("unknown error") })
    );
    db.store.fail_with = Some(77);
    assert_eq!(
        db.get_root_hash(),
        Err(DbError::Native { code: 77, message: String::from("unknown error") })
    );
}

#[test]
fn get_of_unwritten_key_is_absent() {
    let mut db = Session::open("./t1").unwrap();
    assert_eq!(db.get(b"never written", None), Ok(None));
    assert_eq!(db.store.log, vec!["init", "get", "free"]);
}

#[test]
fn get_after_delete_is_absent() {
    let mut db = Session::open("./t1").unwrap();
    db.put(b"k", b"v").unwrap();
    db.delete(b"k").unwrap();
    assert_eq!(db.get(b"k", None), Ok(None));
}

#[test]
fn get_passes_the_version_selector() {
    let mut db = Session::open("./t1").unwrap();
    assert_eq!(
        db.db.get(b"k", None),
        Ok(NativeCall::Get { handle: SESSION, key: b"k", version: 0 })
    );
    let mut db = Session::open("./t1").unwrap();
    assert_eq!(
        db.db.get(b"k", Some(7)),
        Ok(NativeCall::Get { handle: SESSION, key: b"k", version: 7 })
    );
    let mut db = Session::open("./t1").unwrap();
    assert_eq!(
        db.db.get(b"k", Some(u32::MAX)),
        Ok(NativeCall::Get { handle: SESSION, key: b"k", version: u32::MAX })
    );
}

#[test]
fn get_copies_then_releases() {
    let mut db = Session::open("./t1").unwrap();
    db.put(b"k", b"value").unwrap();
    db.store.log.clear();
    assert_eq!(db.get(b"k", None), Ok(Some(b"value".to_vec())));
    assert_eq!(db.store.log, vec!["get", "copy", "free"]);
    assert_eq!(db.store.live(), 0);
}

#[test]
fn get_never_reads_a_released_buffer() {
    let mut db = Session::open("./t1").unwrap();
    for round in 0u8..20 {
        db.put(&[round], &[round; 9]).unwrap();
        assert_eq!(db.get(&[round], None), Ok(Some(vec![round; 9])));
        assert_eq!(db.get(&[round, round], None), Ok(None));
        assert_eq!(db.store.live(), 0);
    }
    assert_eq!(db.store.count("get"), 40);
    assert_eq!(db.store.count("free"), 40);
    assert_eq!(db.store.count("copy"), 20);
}

#[test]
fn get_with_null_buffer_is_absent_and_released() {
    let mut db = Session::open("./t1").unwrap();
    db.store.read_with = Some((0, AmdbResult { status: 0, error_msg: 0, data: 0, data_len: 5 }));
    assert_eq!(db.get(b"k", None), Ok(None));
    assert_eq!(db.store.log, vec!["init", "get", "free"]);
}

#[test]
fn get_with_zero_length_is_absent_and_released() {
    let mut db = Session::open("./t1").unwrap();
    let record = db.store.lend(vec![1, 2, 3]);
    db.store.read_with = Some((0, AmdbResult { data_len: 0, ..record }));
    assert_eq!(db.get(b"k", None), Ok(None));
    assert_eq!(db.store.log, vec!["init", "get", "free"]);
    assert_eq!(db.store.live(), 0);
}

#[test]
fn get_not_found_releases_the_record() {
    let mut db = Session::open("./t1").unwrap();
    let record = db.store.lend(vec![1, 2, 3]);
    db.store.read_with = Some((STATUS_NOT_FOUND, record));
    assert_eq!(db.get(b"k", None), Ok(None));
    assert_eq!(db.store.log, vec!["init", "get", "free"]);
    assert_eq!(db.store.live(), 0);
}

#[test]
fn get_failure_releases_then_translates() {
    let mut db = Session::open("./t1").unwrap();
    let record = db.store.lend(vec![1, 2, 3]);
    db.store.read_with = Some((-5, record));
    assert_eq!(
        db.get(b"k", None),
        Err(DbError::Native { code: -5, message: String::from("io failure") })
    );
    assert_eq!(db.store.log, vec!["init", "get", "free", "error_string"]);
    assert_eq!(db.store.live(), 0);
    assert!(db.db.is_ready());
}

#[test]
fn get_goes_by_the_status_of_the_record() {
    let mut db = Session::open("./t1").unwrap();
    let record = db.store.lend(vec![1, 2, 3]);
    db.store.read_with = Some((0, AmdbResult { status: -1, ..record }));
    assert_eq!(
        db.get(b"k", None),
        Err(DbError::Native { code: -1, message: String::from("invalid argument") })
    );
    assert_eq!(db.store.count("copy"), 0);
    assert_eq!(db.store.live(), 0);

    let record = db.store.lend(vec![4, 5]);
    db.store.read_with = Some((0, AmdbResult { status: STATUS_NOT_FOUND, ..record }));
    assert_eq!(db.get(b"k", None), Ok(None));
    assert_eq!(db.store.count("copy"), 0);
    assert_eq!(db.store.live(), 0);
}

#[test]
fn copy_of_another_length_is_refused() {
    let mut db = Session::open("./t1").unwrap();
    db.put(b"k", b"value").unwrap();
    let call = db.db.get(b"k", None).unwrap();
    let reply = db.store.perform(call);
    let record = match &reply {
        NativeReply::Get { record, .. } => AmdbResult {
            status: record.status,
            error_msg: record.error_msg,
            data: record.data,
            data_len: record.data_len,
        },
        other => panic!("get answered {:?}", other),
    };
    assert_eq!(
        db.db.resume(reply),
        Ok(Step::Call(NativeCall::CopyBuffer { data: record.data, len: 5 }))
    );
    assert_eq!(
        db.db.resume(NativeReply::Copied { data: b"valu".to_vec() }),
        Err(DbError::InvalidState)
    );
    assert_eq!(
        db.db.resume(NativeReply::Copied { data: b"value".to_vec() }),
        Ok(Step::Call(NativeCall::FreeResult { record }))
    );
    assert_eq!(
        db.db.resume(NativeReply::Freed),
        Ok(Step::Done(Ok(Output::Value(Some(b"value".to_vec())))))
    );
}

#[test]
fn delete_failure_is_translated() {
    let mut db = Session::open("./t1").unwrap();
    db.store.fail_with = Some(STATUS_NOT_FOUND);
    assert_eq!(
        db.delete(b"k"),
        Err(DbError::Native { code: -2, message: String::from("unknown error") })
    );
    assert_eq!(db.delete(b"k"), Ok(()));
}

#[test]
fn request_while_waiting_is_refused() {
    let mut db = Session::open("./t1").unwrap();
    let call = db.db.put(b"k", b"v").unwrap();
    assert_eq!(db.db.put(b"k", b"v"), Err(DbError::InvalidState));
    assert_eq!(db.db.get(b"k", None), Err(DbError::InvalidState));
    assert_eq!(db.db.delete(b"k"), Err(DbError::InvalidState));
    assert_eq!(db.db.get_root_hash(), Err(DbError::InvalidState));
    assert_eq!(db.db.close(), Err(DbError::InvalidState));
    assert!(db.db.is_open());
    assert!(!db.db.is_ready());
    assert_eq!(drive(&mut db.db, &mut db.store, call).map(|_| ()), Ok(()));
    assert!(db.db.is_ready());
}

#[test]
fn reply_to_another_call_is_refused() {
    let mut db = Session::open("./t1").unwrap();
    assert_eq!(db.db.resume(NativeReply::Freed), Err(DbError::InvalidState));
    assert!(db.db.is_ready());
    let call = db.db.put(b"k", b"v").unwrap();
    assert_eq!(db.db.resume(NativeReply::Delete { status: 0 }), Err(DbError::InvalidState));
    assert_eq!(
        db.db.resume(NativeReply::RootHash { status: 0, root_hash: [1; 32] }),
        Err(DbError::InvalidState)
    );
    assert_eq!(
        db.db.resume(NativeReply::Init { status: 0, handle: 9 }),
        Err(DbError::InvalidState)
    );
    let reply = db.store.perform(call);
    assert!(matches!(db.db.resume(reply), Ok(Step::Done(Ok(Output::RootHash(_))))));
}

#[test]
fn close_gives_the_handle_away_once() {
    let mut db = Session::open("./t1").unwrap();
    let call = db.db.close().unwrap();
    match &call {
        NativeCall::Close { handle } => assert_eq!(handle.as_raw(), SESSION),
        other => panic!("close asked for {:?}", other),
    }
    assert!(!db.db.is_open());
    assert_eq!(db.db.close(), Err(DbError::InvalidState));
    assert_eq!(drive(&mut db.db, &mut db.store, call), Ok(Output::Closed { status: 0 }));
    assert!(db.db.is_closed());
    assert_eq!(db.db.close(), Err(DbError::InvalidState));
    assert_eq!(db.store.count("close"), 1);
}

#[test]
fn close_status_is_reported_not_raised() {
    let mut db = Session::open("./t1").unwrap();
    db.store.close_status = -5;
    assert_eq!(db.close(), Ok(-5));
    assert!(db.db.is_closed());
    assert!(!db.db.is_open());
    assert_eq!(db.store.count("error_string"), 0);
}

#[test]
fn nothing_is_asked_of_a_closed_session() {
    let mut db = Session::open("./t1").unwrap();
    db.put(b"k", b"v").unwrap();
    db.close().unwrap();
    let calls = db.store.log.len();
    assert_eq!(db.put(b"k", b"v"), Err(DbError::InvalidState));
    assert_eq!(db.get(b"k", None), Err(DbError::InvalidState));
    assert_eq!(db.delete(b"k"), Err(DbError::InvalidState));
    assert_eq!(db.get_root_hash(), Err(DbError::InvalidState));
    assert_eq!(db.store.log.len(), calls);
}

#[test]
fn every_operation_ends_within_three_calls() {
    let mut db = Session::open("./t1").unwrap();
    db.put(b"k", b"v").unwrap();
    assert_eq!(db.store.log, vec!["init", "put"]);
    db.store.log.clear();
    db.get(b"k", None).unwrap();
    assert_eq!(db.store.log.len(), 3);
    db.store.log.clear();
    let record = db.store.lend(vec![1]);
    db.store.read_with = Some((-9, record));
    assert!(db.get(b"k", None).is_err());
    assert_eq!(db.store.log.len(), 3);
}
