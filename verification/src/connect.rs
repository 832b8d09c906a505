//! The `connect` capability: a provider reports its accounts, and the first of them is kept.

use core::cmp::Ordering;
use core::hash::Hash;
use core::hash::Hasher;
use crate::account::WalletAccount;
use crate::error::WalletError;
use crate::error::WalletErrorView;
use crate::error::WalletResult;
use crate::standard_fn::CapabilityLookup;
use crate::standard_fn::StandardFunction;
use crate::standard_fn::descriptor_of;
use crate::version::SemverVersion;
use vstd::prelude::*;
use vstd::string::StringExecFns;

verus! {

/// The key under which a provider holds the capability.
pub const CONNECT_KEY: &'static str = "connect";

/// The namespace of the capability.
pub const CONNECT_NAMESPACE: &'static str = "standard";

/// The field of a provider's answer that holds its accounts.
pub const ACCOUNTS_FIELD: &'static str = "accounts";

/// The hint a provider is called with: whether it should connect without asking its user.
/// This library always asks for a connection that the user sees.
pub const CONNECT_SILENTLY: bool = false;

/// How a connect call on a provider ended.
#[derive(Debug, Clone, PartialEq, Eq)]
pub enum ConnectReply<H> {
    /// The callable failed at the moment it was called, with this failure, before it had
    /// anything to answer with.
    Threw(WalletError),
    /// The provider took the call and then refused or failed, with this failure.
    Rejected(WalletError),
    /// The provider answered with something that has no field `accounts`.
    MissingAccounts,
    /// The provider answered, and its `accounts` are no sequence.
    AccountsNotArray,
    /// The provider answered with these accounts, in this order, each one as the parsing of
    /// it ended.
    Accounts(Vec<WalletResult<WalletAccount<H>>>),
}

/// The place of the first account that failed to parse, or the number of accounts where
/// every one parsed.
pub open spec fn first_failure<H>(parsed: Seq<WalletResult<WalletAccount<H>>>) -> int
    decreases parsed.len(),
{
    if parsed.len() == 0 {
        0
    } else if parsed[0] is Err {
        0
    } else {
        1 + first_failure(parsed.drop_first())
    }
}

/// [`first_failure`] is the least place that holds a failure, and the length where there is
/// none.
pub proof fn lemma_first_failure<H>(parsed: Seq<WalletResult<WalletAccount<H>>>)
    ensures
        0 <= first_failure(parsed) <= parsed.len(),
        forall|i: int| 0 <= i < first_failure(parsed) ==> parsed[i] is Ok,
        first_failure(parsed) < parsed.len() ==> parsed[first_failure(parsed)] is Err,
    decreases parsed.len(),
{
    if parsed.len() > 0 && parsed[0] is Ok {
        let rest = parsed.drop_first();
        lemma_first_failure(rest);
        assert forall|i: int| 0 <= i < first_failure(parsed) implies parsed[i] is Ok by {
            if i > 0 {
                assert(parsed[i] == rest[i - 1]);
            }
        }
        if first_failure(parsed) < parsed.len() {
            assert(parsed[first_failure(parsed)] == rest[first_failure(rest)]);
        }
    }
}

/// What [`Connect::primary_account`] makes of the accounts of a provider's answer.
pub open spec fn chosen_account<H>(parsed: Seq<WalletResult<WalletAccount<H>>>) -> Result<
    WalletAccount<H>,
    WalletErrorView,
> {
    if first_failure(parsed) < parsed.len() {
        Err(parsed[first_failure(parsed)]->Err_0@)
    } else if parsed.len() == 0 {
        Err(WalletErrorView::ConnectHasNoAccounts)
    } else {
        Ok(parsed[0]->Ok_0)
    }
}

/// Without accounts there is no result, and of one or more accounts, however many, the first
/// is the result.
pub proof fn lemma_first_account_is_kept<H>(parsed: Seq<WalletResult<WalletAccount<H>>>)
    requires
        forall|i: int| 0 <= i < parsed.len() ==> parsed[i] is Ok,
    ensures
        parsed.len() == 0 ==> chosen_account(parsed) == Err::<WalletAccount<H>, WalletErrorView>(
            WalletErrorView::ConnectHasNoAccounts,
        ),
        parsed.len() >= 1 ==> chosen_account(parsed) == Ok::<WalletAccount<H>, WalletErrorView>(
            parsed[0]->Ok_0,
        ),
{
    lemma_first_failure(parsed);
}

/// What [`Connect::primary_account`] makes of a provider's answer.
pub open spec fn connect_outcome<H>(reply: ConnectReply<H>) -> Result<
    WalletAccount<H>,
    WalletErrorView,
> {
    match reply {
        ConnectReply::Threw(failure) => Err(WalletErrorView::WalletConnectError(failure@.text())),
        ConnectReply::Rejected(failure) => Err(
            WalletErrorView::WalletConnectError(failure@.text()),
        ),
        ConnectReply::MissingAccounts => Err(WalletErrorView::MissingField(ACCOUNTS_FIELD@)),
        ConnectReply::AccountsNotArray => Err(WalletErrorView::JsValueNotArray(ACCOUNTS_FIELD@)),
        ConnectReply::Accounts(parsed) => chosen_account(parsed@),
    }
}

/// The `standard:connect` capability of a provider.
#[derive(Debug, Clone)]
pub struct Connect<C>(StandardFunction<C>);

impl<C> Connect<C> {
    /// The descriptor of the capability.
    pub closed spec fn descriptor(self) -> StandardFunction<C> {
        self.0
    }

    /// Binds `version` to what a lookup of `connect` found on a provider.
    ///
    /// Fails with `MissingConnectFunction` where nothing was found, and with
    /// `JsValueNotFunction` where what was found cannot be called.
    pub fn new(found: CapabilityLookup<C>, version: SemverVersion) -> (res: WalletResult<Self>)
        ensures
            match descriptor_of(found, version, CONNECT_KEY@, CONNECT_NAMESPACE@) {
                Ok(parts) => res matches Ok(made) && made.descriptor().parts() == parts,
                Err(failure) => res matches Err(e) && e@ == failure,
            },
    {
        match StandardFunction::new(found, version, CONNECT_KEY, CONNECT_NAMESPACE) {
            Ok(descriptor) => Ok(Connect(descriptor)),
            Err(e) => Err(e),
        }
    }

    /// The descriptor of the capability.
    pub fn standard_function(&self) -> (res: &StandardFunction<C>)
        ensures
            *res == self.descriptor(),
    {
        &self.0
    }

    /// Decides what a connect call is worth: `reply` is how the provider answered.
    ///
    /// Every failure on the provider's side, whether the callable failed when it was called
    /// or the provider refused afterwards, becomes `WalletConnectError` with the text of the
    /// provider's failure. An answer without a
    /// sequence of accounts fails. Where an account failed to parse, the call fails with
    /// the failure of the first such account, whatever the others are. Without any account
    /// the call fails with `ConnectHasNoAccounts`. Otherwise the first account is the
    /// result: of several accounts, this library keeps the first and no other.
    pub fn primary_account<H>(&self, reply: ConnectReply<H>) -> (res: WalletResult<
        WalletAccount<H>,
    >)
        ensures
            match connect_outcome(reply) {
                Ok(account) => res == Ok::<WalletAccount<H>, WalletError>(account),
                Err(failure) => res matches Err(e) && e@ == failure,
            },
    {
        let mut parsed = match reply {
            ConnectReply::Threw(failure) => {
                return Err(WalletError::WalletConnectError(failure.to_string()));
            },
            ConnectReply::Rejected(failure) => {
                return Err(WalletError::WalletConnectError(failure.to_string()));
            },
            ConnectReply::MissingAccounts => {
                return Err(WalletError::MissingField(String::from_str(ACCOUNTS_FIELD)));
            },
            ConnectReply::AccountsNotArray => {
                return Err(WalletError::JsValueNotArray(String::from_str(ACCOUNTS_FIELD)));
            },
            ConnectReply::Accounts(parsed) => parsed,
        };
        proof {
            lemma_first_failure(parsed@);
        }
        let mut at: usize = 0;
        while at < parsed.len() && parsed[at].is_ok()
            invariant
                at <= parsed@.len(),
                forall|i: int| 0 <= i < at ==> parsed@[i] is Ok,
            decreases parsed@.len() - at,
        {
            at += 1;
        }
        if at < parsed.len() {
            let failed = parsed.swap_remove(at);
            return failed;
        }
        if parsed.len() == 0 {
            return Err(WalletError::ConnectHasNoAccounts);
        }
        parsed.remove(0)
    }
}

impl<C: Default> Default for Connect<C> {
    /// The version `0.0.0` bound to the default callable.
    fn default() -> (res: Self)
        ensures
            res.descriptor().spec_version()@ == (0u8, 0u8, 0u8),
            call_ensures(C::default, (), res.descriptor().spec_callback()),
    {
        Connect(StandardFunction::default())
    }
}

impl<C> PartialEq for Connect<C> {
    /// Whether the two capabilities have the same version.
    fn eq(&self, other: &Self) -> (res: bool) {
        self.0.version() == other.0.version()
    }
}

impl<C> vstd::std_specs::cmp::PartialEqSpecImpl for Connect<C> {
    open spec fn obeys_eq_spec() -> bool {
        true
    }

    open spec fn eq_spec(&self, other: &Self) -> bool {
        self.descriptor().spec_version() == other.descriptor().spec_version()
    }
}

impl<C> Eq for Connect<C> {

}

impl<C> PartialOrd for Connect<C> {
    /// How the two capabilities' versions stand to each other.
    fn partial_cmp(&self, other: &Self) -> (res: Option<Ordering>) {
        Some(self.0.cmp(&other.0))
    }
}

impl<C> vstd::std_specs::cmp::PartialOrdSpecImpl for Connect<C> {
    open spec fn obeys_partial_cmp_spec() -> bool {
        true
    }

    open spec fn partial_cmp_spec(&self, other: &Self) -> Option<Ordering> {
        Some(self.descriptor().ordering(other.descriptor()))
    }
}

impl<C> Hash for Connect<C> {
    /// Feeds what the version feeds, and nothing of the callable.
    fn hash<H: Hasher>(&self, state: &mut H) {
        self.0.hash(state)
    }
}

} // verus!
