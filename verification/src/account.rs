//! The accounts a wallet exposes.

use crate::ed25519::to_32_bytes;
use crate::error::WalletErrorView;
use crate::error::WalletResult;
use crate::reflection::ByteField;
use crate::reflection::field_bytes;
use vstd::prelude::*;

verus! {

/// The field of a provider's account that holds its public key.
pub const PUBLIC_KEY_FIELD: &'static str = "publicKey";

/// An account of a wallet: the provider's own value for it, which this library only passes
/// on, and the 32 bytes of its public key.
///
/// An account is never changed once it is made.
#[derive(Debug, Clone, PartialEq, Eq)]
pub struct WalletAccount<H> {
    handle: H,
    public_key: [u8; 32],
}

/// What [`WalletAccount::parse`] makes of the public key field of an account.
pub open spec fn parsed_public_key(public_key: ByteField) -> Result<Seq<u8>, WalletErrorView> {
    match field_bytes(public_key, PUBLIC_KEY_FIELD@, PUBLIC_KEY_FIELD@) {
        Ok(bytes) => if bytes.len() == 32 {
            Ok(bytes)
        } else {
            Err(WalletErrorView::Expected32ByteLength)
        },
        Err(failure) => Err(failure),
    }
}

impl<H> WalletAccount<H> {
    /// The provider's own value for the account.
    pub closed spec fn spec_handle(self) -> H {
        self.handle
    }

    /// The bytes of the account's public key.
    pub closed spec fn spec_public_key(self) -> Seq<u8> {
        self.public_key@
    }

    /// The account of the provider's value `handle` with the public key `public_key`.
    pub fn new(handle: H, public_key: [u8; 32]) -> (res: Self)
        ensures
            res.spec_handle() == handle,
            res.spec_public_key() == public_key@,
    {
        WalletAccount { handle, public_key }
    }

    /// The account of the provider's value `handle`, from what its public key field held.
    ///
    /// Fails with `MissingField` where the field is absent, with `JsValueNotUnint8Array`
    /// where it holds no byte array, and with `Expected32ByteLength` where the bytes are not
    /// 32.
    pub fn parse(handle: H, public_key: &ByteField) -> (res: WalletResult<Self>)
        ensures
            match parsed_public_key(*public_key) {
                Ok(bytes) => res matches Ok(account) && account.spec_handle() == handle
                    && account.spec_public_key() == bytes,
                Err(failure) => res matches Err(e) && e@ == failure,
            },
    {
        let bytes = match public_key.bytes(PUBLIC_KEY_FIELD, PUBLIC_KEY_FIELD) {
            Ok(bytes) => bytes,
            Err(e) => {
                return Err(e);
            },
        };
        match to_32_bytes(bytes) {
            Ok(public_key) => Ok(WalletAccount { handle, public_key }),
            Err(e) => Err(e),
        }
    }

    /// The provider's own value for the account.
    pub fn handle(&self) -> (res: &H)
        ensures
            *res == self.spec_handle(),
    {
        &self.handle
    }

    /// The bytes of the account's public key.
    pub fn public_key(&self) -> (res: [u8; 32])
        ensures
            res@ == self.spec_public_key(),
    {
        self.public_key
    }
}

} // verus!
