//! The failures a wallet call can end in.

use vstd::prelude::*;
use vstd::string::StringExecFns;

verus! {

/// Why a capability lookup, a connect call or a sign call failed.
///
/// Every condition is terminal for the call that met it: nothing is retried.
#[derive(Debug, Clone, PartialEq, Eq)]
pub enum WalletError {
    /// The provider's own failure, with the name, message and stack it reported.
    JsError { name: String, message: String, stack: String },
    /// The provider has no capability under the key that was looked up.
    MissingConnectFunction,
    /// The provider holds something under the key, but it cannot be called.
    /// The text names the namespace and key.
    JsValueNotFunction(String),
    /// A value that should be a sequence is not one. The text names the place.
    JsValueNotArray(String),
    /// A value that should be a byte array is not one. The text names the place.
    JsValueNotUnint8Array(String),
    /// A field is absent from a value of the provider. The text is the field's name.
    MissingField(String),
    /// The provider refused or failed the connect call. The text is its failure.
    WalletConnectError(String),
    /// The connect call came back without any account.
    ConnectHasNoAccounts,
    /// The sign call came back with an empty sequence.
    ReceivedAnEmptySignedMessagesArray,
    /// The provider says it signed other bytes than it was asked to sign.
    SignedMessageMismatch,
    /// A public key does not have 32 bytes.
    Expected32ByteLength,
    /// A signature does not have 64 bytes.
    Expected64ByteLength,
    /// 32 bytes that are not the encoding of an Ed25519 public key.
    InvalidEd25519PublicKeyBytes,
    /// 64 bytes that are not the encoding of an Ed25519 signature.
    InvalidSignatureBytes,
    /// The signature is not one of the public key over the message.
    InvalidSignature,
}

/// The result of a wallet call.
pub type WalletResult<T> = Result<T, WalletError>;

/// A [`WalletError`] with its texts as sequences of characters.
pub enum WalletErrorView {
    JsError { name: Seq<char>, message: Seq<char>, stack: Seq<char> },
    MissingConnectFunction,
    JsValueNotFunction(Seq<char>),
    JsValueNotArray(Seq<char>),
    JsValueNotUnint8Array(Seq<char>),
    MissingField(Seq<char>),
    WalletConnectError(Seq<char>),
    ConnectHasNoAccounts,
    ReceivedAnEmptySignedMessagesArray,
    SignedMessageMismatch,
    Expected32ByteLength,
    Expected64ByteLength,
    InvalidEd25519PublicKeyBytes,
    InvalidSignatureBytes,
    InvalidSignature,
}

impl View for WalletError {
    type V = WalletErrorView;

    open spec fn view(&self) -> WalletErrorView {
        match self {
            WalletError::JsError { name, message, stack } => WalletErrorView::JsError {
                name: name@,
                message: message@,
                stack: stack@,
            },
            WalletError::MissingConnectFunction => WalletErrorView::MissingConnectFunction,
            WalletError::JsValueNotFunction(text) => WalletErrorView::JsValueNotFunction(text@),
            WalletError::JsValueNotArray(text) => WalletErrorView::JsValueNotArray(text@),
            WalletError::JsValueNotUnint8Array(text) => WalletErrorView::JsValueNotUnint8Array(
                text@,
            ),
            WalletError::MissingField(text) => WalletErrorView::MissingField(text@),
            WalletError::WalletConnectError(text) => WalletErrorView::WalletConnectError(text@),
            WalletError::ConnectHasNoAccounts => WalletErrorView::ConnectHasNoAccounts,
            WalletError::ReceivedAnEmptySignedMessagesArray =>
                WalletErrorView::ReceivedAnEmptySignedMessagesArray,
            WalletError::SignedMessageMismatch => WalletErrorView::SignedMessageMismatch,
            WalletError::Expected32ByteLength => WalletErrorView::Expected32ByteLength,
            WalletError::Expected64ByteLength => WalletErrorView::Expected64ByteLength,
            WalletError::InvalidEd25519PublicKeyBytes =>
                WalletErrorView::InvalidEd25519PublicKeyBytes,
            WalletError::InvalidSignatureBytes => WalletErrorView::InvalidSignatureBytes,
            WalletError::InvalidSignature => WalletErrorView::InvalidSignature,
        }
    }
}

impl WalletErrorView {
    /// The text that describes the failure.
    pub open spec fn text(self) -> Seq<char> {
        match self {
            WalletErrorView::JsError { name, message, stack } => "JsError{ name: "@ + name
                + ", message: "@ + message + ", stack: "@ + stack + " }"@,
            WalletErrorView::MissingConnectFunction =>
                "The capability is missing from the wallet"@,
            WalletErrorView::JsValueNotFunction(text) => "Not a function: "@ + text,
            WalletErrorView::JsValueNotArray(text) => "Not an array: "@ + text,
            WalletErrorView::JsValueNotUnint8Array(text) => "Not a byte array: "@ + text,
            WalletErrorView::MissingField(text) => "Missing field: "@ + text,
            WalletErrorView::WalletConnectError(text) => "Unable to connect to the wallet: "@
                + text,
            WalletErrorView::ConnectHasNoAccounts => "The wallet returned no accounts"@,
            WalletErrorView::ReceivedAnEmptySignedMessagesArray =>
                "The wallet returned no signed message"@,
            WalletErrorView::SignedMessageMismatch =>
                "The signed message differs from the message that was sent"@,
            WalletErrorView::Expected32ByteLength => "Expected 32 bytes"@,
            WalletErrorView::Expected64ByteLength => "Expected 64 bytes"@,
            WalletErrorView::InvalidEd25519PublicKeyBytes =>
                "The bytes are not an Ed25519 public key"@,
            WalletErrorView::InvalidSignatureBytes => "The bytes are not an Ed25519 signature"@,
            WalletErrorView::InvalidSignature => "The signature does not match the message"@,
        }
    }
}

/// `head` followed by `tail`, as an owned string.
fn join(head: &str, tail: &str) -> (res: String)
    ensures
        res@ == head@ + tail@,
{
    String::from_str(head).concat(tail)
}

impl WalletError {
    /// The text that describes the failure.
    pub fn to_string(&self) -> (res: String)
        ensures
            res@ == self@.text(),
    {
        match self {
            WalletError::JsError { name, message, stack } => {
                let text = join("JsError{ name: ", name.as_str());
                let text = text.concat(", message: ").concat(message.as_str());
                text.concat(", stack: ").concat(stack.as_str()).concat(" }")
            },
            WalletError::MissingConnectFunction => String::from_str(
                "The capability is missing from the wallet",
            ),
            WalletError::JsValueNotFunction(text) => join("Not a function: ", text.as_str()),
            WalletError::JsValueNotArray(text) => join("Not an array: ", text.as_str()),
            WalletError::JsValueNotUnint8Array(text) => join(
                "Not a byte array: ",
                text.as_str(),
            ),
            WalletError::MissingField(text) => join("Missing field: ", text.as_str()),
            WalletError::WalletConnectError(text) => join(
                "Unable to connect to the wallet: ",
                text.as_str(),
            ),
            WalletError::ConnectHasNoAccounts => String::from_str(
                "The wallet returned no accounts",
            ),
            WalletError::ReceivedAnEmptySignedMessagesArray => String::from_str(
                "The wallet returned no signed message",
            ),
            WalletError::SignedMessageMismatch => String::from_str(
                "The signed message differs from the message that was sent",
            ),
            WalletError::Expected32ByteLength => String::from_str("Expected 32 bytes"),
            WalletError::Expected64ByteLength => String::from_str("Expected 64 bytes"),
            WalletError::InvalidEd25519PublicKeyBytes => String::from_str(
                "The bytes are not an Ed25519 public key",
            ),
            WalletError::InvalidSignatureBytes => String::from_str(
                "The bytes are not an Ed25519 signature",
            ),
            WalletError::InvalidSignature => String::from_str(
                "The signature does not match the message",
            ),
        }
    }
}

} // verus!
