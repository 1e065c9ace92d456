//! Status codes of the native interface.

use vstd::prelude::*;

verus! {

/// The status with which every native call reports success.
pub const STATUS_OK: i32 = 0;

/// The status with which a read reports that the key has no value.
///
/// The native interface gives this code no name; it belongs to the version of the
/// native library that the driver links.
pub const STATUS_NOT_FOUND: i32 = -2;

/// Length of a root hash in bytes.
pub const ROOT_HASH_LEN: usize = 32;

/// The digest of the state of the store. It is copied by value.
pub type RootHash = [u8; ROOT_HASH_LEN];

/// What a status code means to a read.
#[derive(Clone, Copy, Debug, PartialEq, Eq, Structural)]
pub enum StatusClass {
    /// The call succeeded and its outputs are defined.
    Success,
    /// The key has no value. This is an answer, not a failure.
    Absent,
    /// The call failed; the code identifies the failure.
    Failure,
}

/// The meaning of `status` as the result of a read: zero is success, the
/// not-found code is absence, every other code is a failure.
pub open spec fn read_class(status: i32) -> StatusClass {
    if status == STATUS_OK {
        StatusClass::Success
    } else if status == STATUS_NOT_FOUND {
        StatusClass::Absent
    } else {
        StatusClass::Failure
    }
}

/// Classifies the status of a read.
pub fn classify_read(status: i32) -> (class: StatusClass)
    ensures
        class == read_class(status),
{
    if status == STATUS_OK {
        StatusClass::Success
    } else if status == STATUS_NOT_FOUND {
        StatusClass::Absent
    } else {
        StatusClass::Failure
    }
}

/// Whether `status` reports success. Every call but a read treats each other
/// code, the not-found code included, as a failure.
pub fn succeeded(status: i32) -> (ok: bool)
    ensures
        ok <==> status == STATUS_OK,
{
    status == STATUS_OK
}

} // verus!
