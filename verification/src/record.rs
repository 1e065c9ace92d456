//! The two foreign-owned resources: the session handle and the result record.

use vstd::prelude::*;
use crate::status::STATUS_OK;

verus! {

/// Token for one open session with the native store.
///
/// Only a [`crate::database::Database`] makes one, from the handle that a
/// successful initialize call produced, and it gives the token away exactly once,
/// inside the close call. The token cannot be copied.
#[derive(Debug, PartialEq, Eq)]
pub struct AmdbHandle {
    raw: usize,
}

impl View for AmdbHandle {
    type V = usize;

    closed spec fn view(&self) -> usize {
        self.raw
    }
}

impl AmdbHandle {
    pub(crate) fn new(raw: usize) -> (handle: AmdbHandle)
        ensures
            handle@ == raw,
    {
        AmdbHandle { raw }
    }

    /// The address of the native session, for a call that borrows the handle.
    pub fn as_raw(&self) -> (raw: usize)
        ensures
            raw == self@,
    {
        self.raw
    }

    /// Gives up the token for the address of the native session. Meant for the
    /// close call, after which the address is dead.
    pub fn into_raw(self) -> (raw: usize)
        ensures
            raw == self@,
    {
        self.raw
    }
}

/// The record that a native read fills in, as plain values.
///
/// `data` and `error_msg` are addresses in foreign memory, zero for a null
/// pointer. The buffer of `data_len` bytes at `data` belongs to the native side
/// until the record is released; `error_msg` is borrowed and never released.
#[derive(Debug, PartialEq, Eq, Structural)]
pub struct AmdbResult {
    pub status: i32,
    pub error_msg: usize,
    pub data: usize,
    pub data_len: usize,
}

impl AmdbResult {
    /// Whether the record points at data: a buffer that is neither null nor
    /// empty. A record without data is never dereferenced.
    pub open spec fn has_data(self) -> bool {
        self.data != 0 && self.data_len != 0
    }

    /// The record as it stands before a native read fills it in: success, no
    /// message, no buffer.
    pub open spec fn blank() -> AmdbResult {
        AmdbResult { status: STATUS_OK, error_msg: 0, data: 0, data_len: 0 }
    }

    /// A blank record to hand to the native read.
    pub fn new() -> (record: AmdbResult)
        ensures
            record == AmdbResult::blank(),
    {
        AmdbResult { status: STATUS_OK, error_msg: 0, data: 0, data_len: 0 }
    }

    /// Whether the record points at data.
    pub fn holds_data(&self) -> (held: bool)
        ensures
            held == self.has_data(),
    {
        self.data != 0 && self.data_len != 0
    }
}

} // verus!
