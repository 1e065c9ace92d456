//! Marshalling of the data directory for the native initialize call.

use vstd::prelude::*;
use vstd::string::*;
use crate::error::{DbError, ErrorView};

verus! {

/// Whether `bytes` holds a zero byte.
pub open spec fn has_zero(bytes: Seq<u8>) -> bool {
    exists|i: int| 0 <= i < bytes.len() && bytes[i] == 0u8
}

/// Whether the first zero byte of `bytes` stands at index `i`.
pub open spec fn first_zero_at(bytes: Seq<u8>, i: int) -> bool {
    &&& 0 <= i < bytes.len()
    &&& bytes[i] == 0u8
    &&& forall|j: int| 0 <= j < i ==> bytes[j] != 0u8
}

/// The native form of a path: its bytes, closed by one zero byte.
pub open spec fn terminated(bytes: Seq<u8>) -> Seq<u8> {
    bytes.push(0u8)
}

/// Turns a data directory into the zero-terminated byte string that the native
/// library expects.
///
/// A path with a zero byte among its bytes has no such form, since the native
/// side would read it as ending there; it is refused, with the position of its
/// first zero byte.
pub fn marshal_path(data_dir: &str) -> (result: Result<Vec<u8>, DbError>)
    ensures
        match result {
            Ok(path) => !has_zero(data_dir.spec_bytes()) && path@ == terminated(
                data_dir.spec_bytes(),
            ),
            Err(error) => error@ matches ErrorView::Encoding { position } && first_zero_at(
                data_dir.spec_bytes(),
                position as int,
            ),
        },
{
    let bytes = data_dir.as_bytes();
    let mut path: Vec<u8> = Vec::new();
    let mut i: usize = 0;
    while i < bytes.len()
        invariant
            bytes@ == data_dir.spec_bytes(),
            i <= bytes@.len(),
            path@ == bytes@.subrange(0, i as int),
            forall|j: int| 0 <= j < i ==> bytes@[j] != 0u8,
        decreases bytes@.len() - i,
    {
        let byte = bytes[i];
        if byte == 0 {
            return Err(DbError::Encoding { position: i });
        }
        path.push(byte);
        i += 1;
    }
    assert(bytes@.subrange(0, i as int) == bytes@);
    path.push(0);
    Ok(path)
}

} // verus!
