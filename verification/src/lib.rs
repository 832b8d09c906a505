//! Versioned wallet capabilities and attested message signing.
//!
//! A wallet, the provider, offers capabilities: named functions, each with a version. This
//! library binds a version to a provider's function ([`StandardFunction`]), decides what the
//! provider's answer to a connect call is worth ([`Connect`]), and accepts a message signed by
//! the provider only after it has checked that the provider signed exactly the bytes it was
//! asked to sign and that the signature is one of the account's public key
//! ([`SignMessage`], [`SignedMessageOutput`]).
//!
//! The provider's values live outside this library. Whoever talks to the provider hands over,
//! as plain data, what it found there ([`CapabilityLookup`], [`ConnectReply`],
//! [`SignMessageReply`]), and this library decides.

pub mod account;
pub mod connect;
pub mod ed25519;
pub mod error;
pub mod reflection;
pub mod sign_message;
pub mod standard_fn;
pub mod version;

pub use crate::account::WalletAccount;
pub use crate::connect::Connect;
pub use crate::connect::ConnectReply;
pub use crate::error::WalletError;
pub use crate::error::WalletResult;
pub use crate::reflection::ByteField;
pub use crate::sign_message::SignMessage;
pub use crate::sign_message::SignMessageReply;
pub use crate::sign_message::SignedMessageEntry;
pub use crate::sign_message::SignedMessageOutput;
pub use crate::standard_fn::CapabilityLookup;
pub use crate::standard_fn::StandardFunction;
pub use crate::version::SemverVersion;
