//! Ed25519 keys and signatures, decoded and checked by `ed25519_dalek`.
//!
//! Keys and signatures travel through this library as bytes. Whether bytes are a key, and
//! whether a signature is one of a key over a message, is for `ed25519_dalek` to say: this
//! module gives what it says a name, and decides which failure a refusal is.

use crate::error::WalletError;
use crate::error::WalletErrorView;
use crate::error::WalletResult;
use ed25519_dalek::PublicKey;
use ed25519_dalek::Signature;
use ed25519_dalek::SignatureError;
use ed25519_dalek::Verifier;
use vstd::prelude::*;

verus! {

/// A decoded Ed25519 public key. Nothing of its contents is visible here.
#[verifier::external_type_specification]
#[verifier::external_body]
pub struct ExPublicKey(ed25519_dalek::PublicKey);

/// A decoded Ed25519 signature. Nothing of its contents is visible here.
#[verifier::external_type_specification]
#[verifier::external_body]
pub struct ExSignature(ed25519_dalek::Signature);

/// Why `ed25519_dalek` refused a key or a signature. Nothing of its contents is visible here.
#[verifier::external_type_specification]
#[verifier::external_body]
pub struct ExSignatureError(ed25519_dalek::SignatureError);

/// The public key that `PublicKey::from_bytes` decodes from `bytes`, if it decodes one.
pub uninterp spec fn decoded_public_key(bytes: Seq<u8>) -> Option<PublicKey>;

/// The signature that `Signature::from_bytes` decodes from `bytes`, if it decodes one.
pub uninterp spec fn decoded_signature(bytes: Seq<u8>) -> Option<Signature>;

/// Whether `public_key` and `signature` decode to a key and a signature for which
/// `Verifier::verify` accepts `message`.
pub uninterp spec fn signature_verifies(
    public_key: Seq<u8>,
    message: Seq<u8>,
    signature: Seq<u8>,
) -> bool;

/// Whether `bytes` encode a public key: a point of the curve.
pub open spec fn public_key_decodes(bytes: Seq<u8>) -> bool {
    decoded_public_key(bytes) is Some
}

/// Whether `bytes` have the form of a signature: 64 bytes, the three highest bits of the last
/// one clear.
pub open spec fn signature_well_formed(bytes: Seq<u8>) -> bool {
    bytes.len() == 64 && (bytes[63] & 0xE0) == 0
}

/// `PublicKey::from_bytes` decodes a key from the bytes or refuses them, and what it decodes
/// depends on the bytes alone. It refuses whatever is not 32 bytes long.
pub assume_specification[ PublicKey::from_bytes ](bytes: &[u8]) -> (res: Result<
    PublicKey,
    SignatureError,
>)
    ensures
        res.is_ok() ==> decoded_public_key(bytes@) == Some(res->Ok_0),
        res.is_err() ==> decoded_public_key(bytes@) is None,
        res.is_ok() ==> bytes@.len() == 32,
;

/// `Signature::from_bytes` accepts exactly the byte strings of 64 bytes whose last byte has
/// its three highest bits clear, and what it decodes depends on the bytes alone.
pub assume_specification[ Signature::from_bytes ](bytes: &[u8]) -> (res: Result<
    Signature,
    SignatureError,
>)
    ensures
        res.is_ok() == signature_well_formed(bytes@),
        res.is_ok() ==> decoded_signature(bytes@) == Some(res->Ok_0),
        res.is_err() ==> decoded_signature(bytes@) is None,
;

/// Decodes the key and the signature and calls `Verifier::verify` with them on `message`.
/// The answer is `true` where both decode and the call accepts, and so only where both decode.
#[verifier::external_body]
fn verify_detached(public_key: &[u8; 32], message: &[u8], signature: &[u8; 64]) -> (res: bool)
    ensures
        res == signature_verifies(public_key@, message@, signature@),
        res ==> public_key_decodes(public_key@) && signature_well_formed(signature@),
{
    match (PublicKey::from_bytes(public_key), Signature::from_bytes(signature)) {
        (Ok(key), Ok(signature)) => key.verify(message, &signature).is_ok(),
        _ => false,
    }
}

/// What [`verify_signature`] makes of a public key, a message and a signature: the first of
/// its three checks that fails, or success.
pub open spec fn signature_check(public_key: Seq<u8>, message: Seq<u8>, signature: Seq<u8>) -> Result<
    (),
    WalletErrorView,
> {
    if !signature_well_formed(signature) {
        Err(WalletErrorView::InvalidSignatureBytes)
    } else if !public_key_decodes(public_key) {
        Err(WalletErrorView::InvalidEd25519PublicKeyBytes)
    } else if !signature_verifies(public_key, message, signature) {
        Err(WalletErrorView::InvalidSignature)
    } else {
        Ok(())
    }
}

/// The bytes as an array of `N`, where they are `N`.
fn to_array<const N: usize>(bytes: &[u8]) -> (res: Option<[u8; N]>)
    ensures
        (res is Some) == (bytes@.len() == N),
        res matches Some(array) ==> array@ == bytes@,
{
    if bytes.len() != N {
        return None;
    }
    let mut array = [0u8; N];
    let mut at: usize = 0;
    while at < N
        invariant
            bytes@.len() == N,
            at <= N,
            forall|i: int| 0 <= i < at ==> array@[i] == bytes@[i],
        decreases N - at,
    {
        array[at] = bytes[at];
        at += 1;
    }
    assert(array@ =~= bytes@);
    Some(array)
}

/// The 32 bytes as an array, or the failure `Expected32ByteLength` for any other length.
pub fn to_32_bytes(bytes: &[u8]) -> (res: WalletResult<[u8; 32]>)
    ensures
        bytes@.len() == 32 ==> (res matches Ok(array) && array@ == bytes@),
        bytes@.len() != 32 ==> (res matches Err(e) && e@
            == WalletErrorView::Expected32ByteLength),
{
    match to_array::<32>(bytes) {
        Some(array) => Ok(array),
        None => Err(WalletError::Expected32ByteLength),
    }
}

/// The 64 bytes as an array, or the failure `Expected64ByteLength` for any other length.
pub fn to_64_bytes(bytes: &[u8]) -> (res: WalletResult<[u8; 64]>)
    ensures
        bytes@.len() == 64 ==> (res matches Ok(array) && array@ == bytes@),
        bytes@.len() != 64 ==> (res matches Err(e) && e@
            == WalletErrorView::Expected64ByteLength),
{
    match to_array::<64>(bytes) {
        Some(array) => Ok(array),
        None => Err(WalletError::Expected64ByteLength),
    }
}

/// The public key that `bytes` encode.
///
/// Fails with `InvalidEd25519PublicKeyBytes` where they encode none.
pub fn public_key(bytes: [u8; 32]) -> (res: WalletResult<PublicKey>)
    ensures
        match decoded_public_key(bytes@) {
            Some(key) => res == Ok::<PublicKey, WalletError>(key),
            None => res matches Err(e) && e@ == WalletErrorView::InvalidEd25519PublicKeyBytes,
        },
{
    match PublicKey::from_bytes(&bytes) {
        Ok(key) => Ok(key),
        Err(_) => Err(WalletError::InvalidEd25519PublicKeyBytes),
    }
}

/// The signature that `bytes` encode.
///
/// Fails with `InvalidSignatureBytes` where they do not have the form of a signature.
pub fn signature(bytes: [u8; 64]) -> (res: WalletResult<Signature>)
    ensures
        (res is Ok) == signature_well_formed(bytes@),
        match decoded_signature(bytes@) {
            Some(signature) => res == Ok::<Signature, WalletError>(signature),
            None => res matches Err(e) && e@ == WalletErrorView::InvalidSignatureBytes,
        },
{
    match Signature::from_bytes(&bytes) {
        Ok(signature) => Ok(signature),
        Err(_) => Err(WalletError::InvalidSignatureBytes),
    }
}

/// Checks that `signature` is a signature of `public_key` over `message`.
///
/// Fails with `InvalidSignatureBytes` where the signature does not have the form of one, else
/// with `InvalidEd25519PublicKeyBytes` where the key encodes none, else with
/// `InvalidSignature` where the signature is not one of that key over that message.
pub fn verify_signature(public_key: &[u8; 32], message: &[u8], signature: &[u8; 64]) -> (res:
    WalletResult<()>)
    ensures
        match signature_check(public_key@, message@, signature@) {
            Ok(_) => res is Ok,
            Err(failure) => res matches Err(e) && e@ == failure,
        },
{
    if let Err(e) = self::signature(*signature) {
        return Err(e);
    }
    if let Err(e) = self::public_key(*public_key) {
        return Err(e);
    }
    if verify_detached(public_key, message, signature) {
        Ok(())
    } else {
        Err(WalletError::InvalidSignature)
    }
}

} // verus!
