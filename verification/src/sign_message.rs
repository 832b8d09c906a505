//! The `signMessage` capability: a provider signs a message, and this library accepts the
//! result only once it has checked it.

use core::cmp::Ordering;
use core::hash::Hash;
use core::hash::Hasher;
use crate::account::WalletAccount;
use crate::ed25519::decoded_public_key;
use crate::ed25519::decoded_signature;
use crate::ed25519::public_key_decodes;
use crate::ed25519::signature_check;
use crate::ed25519::signature_well_formed;
use crate::ed25519::to_64_bytes;
use crate::ed25519::verify_signature;
use crate::error::WalletError;
use crate::error::WalletErrorView;
use crate::error::WalletResult;
use crate::reflection::ByteField;
use crate::reflection::field_bytes;
use crate::reflection::same_bytes;
use crate::standard_fn::CapabilityLookup;
use crate::standard_fn::StandardFunction;
use crate::standard_fn::descriptor_of;
use crate::version::SemverVersion;
use ed25519_dalek::PublicKey;
use ed25519_dalek::Signature;
use vstd::prelude::*;
use vstd::string::StringExecFns;
use vstd::string::StringSliceAdditionalSpecFns;
use vstd::utf8::decode_utf8;
use vstd::utf8::encode_utf8_decode_utf8;
use vstd::utf8::valid_utf8;

verus! {

/// The key under which a provider holds the capability.
pub const SIGN_MESSAGE_KEY: &'static str = "signMessage";

/// The namespace of the capability.
pub const SIGN_MESSAGE_NAMESPACE: &'static str = "solana";

/// The field of a request that holds the account to sign for.
pub const REQUEST_ACCOUNT_FIELD: &'static str = "account";

/// The field of a request that holds the bytes to sign, as they are.
pub const REQUEST_MESSAGE_FIELD: &'static str = "message";

/// The field of a signed message that holds the bytes the provider says it signed.
pub const SIGNED_MESSAGE_FIELD: &'static str = "signedMessage";

/// The field of a signed message that holds the signature.
pub const SIGNATURE_FIELD: &'static str = "signature";

/// The place named where the provider's answer is no sequence.
pub const REPLY_PLACE: &'static str = "solana:signedMessage -> SignedMessageOutput";

/// The place named where the signed bytes are no byte array.
pub const SIGNED_MESSAGE_PLACE: &'static str =
    "solana:signedMessage -> SignedMessageOutput::signedMessage";

/// The place named where the signature is no byte array.
pub const SIGNATURE_PLACE: &'static str = "solana::signMessage -> SignedMessageOutput::signature";

/// One element of the sequence a provider answers a sign call with.
#[derive(Debug, Clone, PartialEq, Eq)]
pub struct SignedMessageEntry {
    /// What stands under `signedMessage`.
    pub signed_message: ByteField,
    /// What stands under `signature`.
    pub signature: ByteField,
}

/// How a sign call on a provider ended.
///
/// A call goes from being made, over the provider's promise, to an answer that can be
/// checked. `Failed` stands for a call that did not get that far; the other two are answers.
#[derive(Debug, Clone, PartialEq, Eq)]
pub enum SignMessageReply {
    /// The call failed or the provider refused, with this failure.
    Failed(WalletError),
    /// The provider answered with something that is no sequence.
    NotArray,
    /// The provider answered with a sequence of these elements.
    Array(Vec<SignedMessageEntry>),
}

/// A message with the signature a provider gave for it, after both were checked.
///
/// Only [`SignMessage::validate`] makes a value, and only from a sign call that succeeded. So
/// every value holds the message that was to be signed, byte for byte, and a signature of the
/// public key over exactly that message: that is the type's invariant, which every method
/// states of the value it is called on. There is no way to change a value once it is made.
#[derive(Debug, PartialEq, Eq, PartialOrd, Ord, Hash, Copy, Clone)]
pub struct SignedMessageOutput<'a> {
    message: &'a [u8],
    public_key: [u8; 32],
    signature: [u8; 64],
}

/// A [`SignedMessageOutput`] as three byte strings.
pub struct SignedMessageView {
    pub message: Seq<u8>,
    pub public_key: Seq<u8>,
    pub signature: Seq<u8>,
}

impl SignedMessageView {
    /// Whether the signature is one of the public key over the message.
    pub open spec fn attested(self) -> bool {
        signature_check(self.public_key, self.message, self.signature) is Ok
    }
}

impl<'a> View for SignedMessageOutput<'a> {
    type V = SignedMessageView;

    closed spec fn view(&self) -> SignedMessageView {
        SignedMessageView {
            message: self.message@,
            public_key: self.public_key@,
            signature: self.signature@,
        }
    }
}

/// `core::str::from_utf8`: the text that the bytes encode, where they are valid UTF-8, and
/// nothing where they are not.
#[verifier::external_body]
fn utf8_text<'a>(bytes: &'a [u8]) -> (res: Option<&'a str>)
    ensures
        (res is Some) == valid_utf8(bytes@),
        res matches Some(text) ==> text.spec_bytes() == bytes@,
{
    core::str::from_utf8(bytes).ok()
}

impl<'a> SignedMessageOutput<'a> {
    /// What holds of every value: the signature is one of the public key over the message.
    #[verifier::type_invariant]
    spec fn is_attested(self) -> bool {
        self@.attested()
    }

    /// The message as text, where its bytes are valid UTF-8.
    pub fn try_message(&self) -> (res: Option<&str>)
        ensures
            self@.attested(),
            (res is Some) == valid_utf8(self@.message),
            res matches Some(text) ==> text.spec_bytes() == self@.message && text@ == decode_utf8(
                self@.message,
            ),
    {
        let res = utf8_text(self.message);
        proof {
            use_type_invariant(self);
            if let Some(text) = res {
                encode_utf8_decode_utf8(text@);
            }
        }
        res
    }

    /// The message as text.
    ///
    /// The message must be valid UTF-8, as it is wherever the bytes that were signed are
    /// those of a string.
    pub fn message(&self) -> (res: &str)
        requires
            valid_utf8(self@.message),
        ensures
            self@.attested(),
            res.spec_bytes() == self@.message,
            res@ == decode_utf8(self@.message),
    {
        match self.try_message() {
            Some(text) => text,
            None => vstd::pervasive::unreached(),
        }
    }

    /// The bytes of the message.
    pub fn message_bytes(&self) -> (res: &'a [u8])
        ensures
            self@.attested(),
            res@ == self@.message,
    {
        proof {
            use_type_invariant(self);
        }
        self.message
    }

    /// The bytes of the public key.
    pub fn public_key_bytes(&self) -> (res: [u8; 32])
        ensures
            self@.attested(),
            res@ == self@.public_key,
    {
        proof {
            use_type_invariant(self);
        }
        self.public_key
    }

    /// The bytes of the signature.
    pub fn signature_bytes(&self) -> (res: [u8; 64])
        ensures
            self@.attested(),
            res@ == self@.signature,
    {
        proof {
            use_type_invariant(self);
        }
        self.signature
    }

    /// The public key, decoded.
    ///
    /// This never fails: the bytes of every value encode a key.
    pub fn public_key(&self) -> (res: WalletResult<PublicKey>)
        ensures
            self@.attested(),
            res matches Ok(key) && decoded_public_key(self@.public_key) == Some(key),
    {
        proof {
            use_type_invariant(self);
        }
        crate::ed25519::public_key(self.public_key)
    }

    /// The signature, decoded.
    ///
    /// This never fails: the bytes of every value have the form of a signature.
    pub fn signature(&self) -> (res: WalletResult<Signature>)
        ensures
            self@.attested(),
            res matches Ok(signature) && decoded_signature(self@.signature) == Some(signature),
    {
        proof {
            use_type_invariant(self);
        }
        crate::ed25519::signature(self.signature)
    }
}

/// What [`SignMessage::validate`] makes of the first element of a provider's answer: the
/// failure of the first check that fails, or the bytes of the signature.
pub open spec fn checked_entry(
    entry: SignedMessageEntry,
    public_key: Seq<u8>,
    message: Seq<u8>,
) -> Result<Seq<u8>, WalletErrorView> {
    if entry.signed_message is Missing {
        Err(WalletErrorView::MissingField(SIGNED_MESSAGE_FIELD@))
    } else if entry.signature is Missing {
        Err(WalletErrorView::MissingField(SIGNATURE_FIELD@))
    } else {
        match field_bytes(entry.signed_message, SIGNED_MESSAGE_FIELD@, SIGNED_MESSAGE_PLACE@) {
            Err(failure) => Err(failure),
            Ok(signed) => if signed != message {
                Err(WalletErrorView::SignedMessageMismatch)
            } else {
                match field_bytes(entry.signature, SIGNATURE_FIELD@, SIGNATURE_PLACE@) {
                    Err(failure) => Err(failure),
                    Ok(signature) => if signature.len() != 64 {
                        Err(WalletErrorView::Expected64ByteLength)
                    } else {
                        match signature_check(public_key, message, signature) {
                            Err(failure) => Err(failure),
                            Ok(_) => Ok(signature),
                        }
                    },
                }
            },
        }
    }
}

/// What [`SignMessage::validate`] makes of a provider's answer: the failure of the first check
/// that fails, or the bytes of the signature.
pub open spec fn checked_reply(reply: SignMessageReply, public_key: Seq<u8>, message: Seq<u8>) -> Result<
    Seq<u8>,
    WalletErrorView,
> {
    match reply {
        SignMessageReply::Failed(failure) => Err(failure@),
        SignMessageReply::NotArray => Err(WalletErrorView::JsValueNotArray(REPLY_PLACE@)),
        SignMessageReply::Array(entries) => if entries@.len() == 0 {
            Err(WalletErrorView::ReceivedAnEmptySignedMessagesArray)
        } else {
            checked_entry(entries@[0], public_key, message)
        },
    }
}

/// The first element of a provider's answer, where the answer is a sequence that has one.
pub open spec fn first_entry(reply: SignMessageReply) -> Option<SignedMessageEntry> {
    match reply {
        SignMessageReply::Array(entries) => if entries@.len() > 0 {
            Some(entries@[0])
        } else {
            None
        },
        _ => None,
    }
}

/// An answer that repeats the message byte for byte and carries a signature of the public key
/// over it is accepted, with that signature.
pub proof fn lemma_honest_answer_is_accepted(
    reply: SignMessageReply,
    public_key: Seq<u8>,
    message: Seq<u8>,
    signature: Seq<u8>,
)
    requires
        first_entry(reply) matches Some(entry) && entry.signed_message.holds(message)
            && entry.signature.holds(signature),
        signature_check(public_key, message, signature) is Ok,
    ensures
        checked_reply(reply, public_key, message) == Ok::<Seq<u8>, WalletErrorView>(signature),
{
}

/// An answer whose signed bytes differ from the message, in any byte or in length, is refused
/// with `SignedMessageMismatch`, whatever signature comes with it, valid or not.
pub proof fn lemma_altered_message_is_refused(
    reply: SignMessageReply,
    public_key: Seq<u8>,
    message: Seq<u8>,
)
    requires
        first_entry(reply) matches Some(entry) && !(entry.signature is Missing) && (
        entry.signed_message matches ByteField::Bytes(signed) && signed@ != message),
    ensures
        checked_reply(reply, public_key, message) == Err::<Seq<u8>, WalletErrorView>(
            WalletErrorView::SignedMessageMismatch,
        ),
{
}

/// An answer whose signature is not one of the public key over the message is refused even
/// where it repeats the message byte for byte: with `Expected64ByteLength` or
/// `InvalidSignatureBytes` where the signature is malformed, else with
/// `InvalidEd25519PublicKeyBytes` where the key is, else with `InvalidSignature`.
pub proof fn lemma_unverified_signature_is_refused(
    reply: SignMessageReply,
    public_key: Seq<u8>,
    message: Seq<u8>,
    signature: Seq<u8>,
)
    requires
        first_entry(reply) matches Some(entry) && entry.signed_message.holds(message)
            && entry.signature.holds(signature),
        !(signature_check(public_key, message, signature) is Ok),
    ensures
        checked_reply(reply, public_key, message) == Err::<Seq<u8>, WalletErrorView>(
            if signature.len() != 64 {
                WalletErrorView::Expected64ByteLength
            } else if !signature_well_formed(signature) {
                WalletErrorView::InvalidSignatureBytes
            } else if !public_key_decodes(public_key) {
                WalletErrorView::InvalidEd25519PublicKeyBytes
            } else {
                WalletErrorView::InvalidSignature
            },
        ),
{
}

/// The `solana:signMessage` capability of a provider.
#[derive(Debug, Clone)]
pub struct SignMessage<C>(StandardFunction<C>);

impl<C> SignMessage<C> {
    /// The descriptor of the capability.
    pub closed spec fn descriptor(self) -> StandardFunction<C> {
        self.0
    }

    /// Binds `version` to what a lookup of `signMessage` found on a provider.
    ///
    /// Fails with `MissingConnectFunction` where nothing was found, and with
    /// `JsValueNotFunction` where what was found cannot be called.
    pub fn new(found: CapabilityLookup<C>, version: SemverVersion) -> (res: WalletResult<Self>)
        ensures
            match descriptor_of(found, version, SIGN_MESSAGE_KEY@, SIGN_MESSAGE_NAMESPACE@) {
                Ok(parts) => res matches Ok(made) && made.descriptor().parts() == parts,
                Err(failure) => res matches Err(e) && e@ == failure,
            },
    {
        match StandardFunction::new(found, version, SIGN_MESSAGE_KEY, SIGN_MESSAGE_NAMESPACE) {
            Ok(descriptor) => Ok(SignMessage(descriptor)),
            Err(e) => Err(e),
        }
    }

    /// The descriptor of the capability.
    pub fn standard_function(&self) -> (res: &StandardFunction<C>)
        ensures
            *res == self.descriptor(),
    {
        &self.0
    }

    /// Decides what a sign call is worth: `reply` is how the provider answered when it was
    /// asked to sign `message` for `account`.
    ///
    /// A failure of the call or a refusal of the provider is passed on as it is. An answer
    /// is checked in this order, and the first check that fails ends the call with its
    /// failure: the answer is a sequence; the sequence is not empty; its first element has
    /// the fields `signedMessage` and `signature`; the signed bytes are a byte array; they
    /// are `message`, byte for byte; the signature is a byte array of 64 bytes in the form
    /// of a signature; the account's public key encodes a key; the signature is one of that
    /// key over `message`. Only then is the result made, from `message`, the account's
    /// public key and the signature. Nothing is tried twice, and nothing is accepted in
    /// part.
    pub fn validate<'a, H>(
        &self,
        account: &WalletAccount<H>,
        message: &'a [u8],
        reply: SignMessageReply,
    ) -> (res: WalletResult<SignedMessageOutput<'a>>)
        ensures
            match checked_reply(reply, account.spec_public_key(), message@) {
                Ok(signature) => res matches Ok(output) && output@ == (SignedMessageView {
                    message: message@,
                    public_key: account.spec_public_key(),
                    signature,
                }) && output@.attested(),
                Err(failure) => res matches Err(e) && e@ == failure,
            },
    {
        let entries = match reply {
            SignMessageReply::Failed(failure) => {
                return Err(failure);
            },
            SignMessageReply::NotArray => {
                return Err(WalletError::JsValueNotArray(String::from_str(REPLY_PLACE)));
            },
            SignMessageReply::Array(entries) => entries,
        };
        if entries.len() == 0 {
            return Err(WalletError::ReceivedAnEmptySignedMessagesArray);
        }
        let first = &entries[0];
        if !first.signed_message.is_present() {
            return Err(WalletError::MissingField(String::from_str(SIGNED_MESSAGE_FIELD)));
        }
        if !first.signature.is_present() {
            return Err(WalletError::MissingField(String::from_str(SIGNATURE_FIELD)));
        }
        let signed = match first.signed_message.bytes(SIGNED_MESSAGE_FIELD, SIGNED_MESSAGE_PLACE) {
            Ok(signed) => signed,
            Err(e) => {
                return Err(e);
            },
        };
        if !same_bytes(signed, message) {
            return Err(WalletError::SignedMessageMismatch);
        }
        let signature = match first.signature.bytes(SIGNATURE_FIELD, SIGNATURE_PLACE) {
            Ok(signature) => signature,
            Err(e) => {
                return Err(e);
            },
        };
        let signature = match to_64_bytes(signature) {
            Ok(signature) => signature,
            Err(e) => {
                return Err(e);
            },
        };
        let public_key = account.public_key();
        if let Err(e) = verify_signature(&public_key, message, &signature) {
            return Err(e);
        }
        Ok(SignedMessageOutput { message, public_key, signature })
    }
}

impl<C: Default> Default for SignMessage<C> {
    /// The version `0.0.0` bound to the default callable.
    fn default() -> (res: Self)
        ensures
            res.descriptor().spec_version()@ == (0u8, 0u8, 0u8),
            call_ensures(C::default, (), res.descriptor().spec_callback()),
    {
        SignMessage(StandardFunction::default())
    }
}

impl<C> PartialEq for SignMessage<C> {
    /// Whether the two capabilities have the same version.
    fn eq(&self, other: &Self) -> (res: bool) {
        self.0.version() == other.0.version()
    }
}

impl<C> vstd::std_specs::cmp::PartialEqSpecImpl for SignMessage<C> {
    open spec fn obeys_eq_spec() -> bool {
        true
    }

    open spec fn eq_spec(&self, other: &Self) -> bool {
        self.descriptor().spec_version() == other.descriptor().spec_version()
    }
}

impl<C> Eq for SignMessage<C> {

}

impl<C> PartialOrd for SignMessage<C> {
    /// How the two capabilities' versions stand to each other.
    fn partial_cmp(&self, other: &Self) -> (res: Option<Ordering>) {
        Some(self.0.cmp(&other.0))
    }
}

impl<C> vstd::std_specs::cmp::PartialOrdSpecImpl for SignMessage<C> {
    open spec fn obeys_partial_cmp_spec() -> bool {
        true
    }

    open spec fn partial_cmp_spec(&self, other: &Self) -> Option<Ordering> {
        Some(self.descriptor().ordering(other.descriptor()))
    }
}

impl<C> Hash for SignMessage<C> {
    /// Feeds what the version feeds, and nothing of the callable.
    fn hash<H: Hasher>(&self, state: &mut H) {
        self.0.hash(state)
    }
}

} // verus!
