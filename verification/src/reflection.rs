//! The shapes in which values of a provider reach this library.
//!
//! A provider's values live outside: whoever reads them reports here, as plain data, what
//! stood where a value was expected.

use crate::error::WalletError;
use crate::error::WalletErrorView;
use crate::error::WalletResult;
use vstd::prelude::*;
use vstd::string::StringExecFns;

verus! {

/// What stood where a byte array was expected.
#[derive(Debug, Clone, PartialEq, Eq)]
pub enum ByteField {
    /// Nothing: the field is absent.
    Missing,
    /// A value that is not a byte array.
    NotBytes,
    /// A byte array with these bytes.
    Bytes(Vec<u8>),
}

/// What [`ByteField::bytes`] makes of a field named `name`, read at `place`.
pub open spec fn field_bytes(field: ByteField, name: Seq<char>, place: Seq<char>) -> Result<
    Seq<u8>,
    WalletErrorView,
> {
    match field {
        ByteField::Missing => Err(WalletErrorView::MissingField(name)),
        ByteField::NotBytes => Err(WalletErrorView::JsValueNotUnint8Array(place)),
        ByteField::Bytes(bytes) => Ok(bytes@),
    }
}

impl ByteField {
    /// Whether the field holds a byte array with exactly these bytes.
    pub open spec fn holds(self, bytes: Seq<u8>) -> bool {
        self matches ByteField::Bytes(held) && held@ == bytes
    }

    /// Whether the field is there at all, whatever it holds.
    pub fn is_present(&self) -> (res: bool)
        ensures
            res == !(self is Missing),
    {
        match self {
            ByteField::Missing => false,
            _ => true,
        }
    }

    /// The bytes of the field named `name`, read at `place`.
    ///
    /// Fails with `MissingField` of the name where the field is absent, and with
    /// `JsValueNotUnint8Array` of the place where it holds no byte array.
    pub fn bytes(&self, name: &str, place: &str) -> (res: WalletResult<&[u8]>)
        ensures
            match field_bytes(*self, name@, place@) {
                Ok(bytes) => res matches Ok(found) && found@ == bytes,
                Err(failure) => res matches Err(e) && e@ == failure,
            },
    {
        match self {
            ByteField::Missing => Err(WalletError::MissingField(String::from_str(name))),
            ByteField::NotBytes => Err(
                WalletError::JsValueNotUnint8Array(String::from_str(place)),
            ),
            ByteField::Bytes(bytes) => Ok(bytes.as_slice()),
        }
    }
}

/// Whether two byte strings hold the same bytes.
pub fn same_bytes(left: &[u8], right: &[u8]) -> (res: bool)
    ensures
        res == (left@ == right@),
{
    if left.len() != right.len() {
        return false;
    }
    let mut at: usize = 0;
    while at < left.len()
        invariant
            left@.len() == right@.len(),
            at <= left@.len(),
            forall|i: int| 0 <= i < at ==> left@[i] == right@[i],
        decreases left@.len() - at,
    {
        if left[at] != right[at] {
            return false;
        }
        at += 1;
    }
    assert(left@ =~= right@);
    true
}

} // verus!
