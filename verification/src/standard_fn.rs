//! Capability descriptors: a declared version bound to a callable of the provider.

use core::cmp::Ordering;
use core::hash::Hash;
use core::hash::Hasher;
use crate::error::WalletError;
use crate::error::WalletErrorView;
use crate::error::WalletResult;
use crate::version::SemverVersion;
use vstd::prelude::*;
use vstd::std_specs::cmp::PartialEqSpec;
use vstd::std_specs::cmp::PartialOrdSpec;
use vstd::string::StringExecFns;

verus! {

/// What a lookup of a key on a provider object found.
#[derive(Debug, Clone, PartialEq, Eq)]
pub enum CapabilityLookup<C> {
    /// The provider holds nothing under the key.
    Missing,
    /// The provider holds a value under the key that cannot be called.
    NotCallable,
    /// The provider holds this callable under the key.
    Callable(C),
}

/// A capability of a provider: the version it was declared with and the callable that
/// performs it.
///
/// Descriptors are compared, ordered and hashed by their version alone. Which callable a
/// descriptor holds plays no part in that: what counts between two descriptors is whether
/// their versions are compatible, not which function performs them.
#[derive(Debug, Clone)]
pub struct StandardFunction<C> {
    version: SemverVersion,
    callback: C,
}

/// The text that names the capability `namespace:key` in a failure.
pub open spec fn capability_place(namespace: Seq<char>, key: Seq<char>) -> Seq<char> {
    "Namespace[`"@ + namespace + ":"@ + key + "-> "@ + key + "`]"@
}

/// What [`StandardFunction::new`] makes of a lookup.
pub open spec fn descriptor_of<C>(
    found: CapabilityLookup<C>,
    version: SemverVersion,
    key: Seq<char>,
    namespace: Seq<char>,
) -> Result<(SemverVersion, C), WalletErrorView> {
    match found {
        CapabilityLookup::Missing => Err(WalletErrorView::MissingConnectFunction),
        CapabilityLookup::NotCallable => Err(
            WalletErrorView::JsValueNotFunction(capability_place(namespace, key)),
        ),
        CapabilityLookup::Callable(callback) => Ok((version, callback)),
    }
}

impl<C> StandardFunction<C> {
    /// The version the capability was declared with.
    pub closed spec fn spec_version(self) -> SemverVersion {
        self.version
    }

    /// The callable that performs the capability.
    pub closed spec fn spec_callback(self) -> C {
        self.callback
    }

    /// The descriptor as a pair of its version and its callable.
    pub open spec fn parts(self) -> (SemverVersion, C) {
        (self.spec_version(), self.spec_callback())
    }

    /// How this descriptor stands to `other`: as their versions do.
    pub open spec fn ordering(self, other: Self) -> Ordering {
        self.spec_version().ordering(other.spec_version())
    }

    /// Binds `version` to what a lookup of `key` in `namespace` found on a provider.
    ///
    /// Fails with `MissingConnectFunction` where nothing was found, and with
    /// `JsValueNotFunction` where what was found cannot be called.
    pub fn new(found: CapabilityLookup<C>, version: SemverVersion, key: &str, namespace: &str) -> (res:
        WalletResult<Self>)
        ensures
            match descriptor_of(found, version, key@, namespace@) {
                Ok(parts) => res matches Ok(made) && made.parts() == parts,
                Err(failure) => res matches Err(e) && e@ == failure,
            },
    {
        match found {
            CapabilityLookup::Missing => Err(WalletError::MissingConnectFunction),
            CapabilityLookup::NotCallable => {
                let place = String::from_str("Namespace[`").concat(namespace).concat(":").concat(
                    key,
                ).concat("-> ").concat(key).concat("`]");
                Err(WalletError::JsValueNotFunction(place))
            },
            CapabilityLookup::Callable(callback) => Ok(StandardFunction { version, callback }),
        }
    }

    /// The version the capability was declared with.
    pub fn version(&self) -> (res: SemverVersion)
        ensures
            res == self.spec_version(),
    {
        self.version
    }

    /// The callable that performs the capability.
    pub fn callback(&self) -> (res: &C)
        ensures
            *res == self.spec_callback(),
    {
        &self.callback
    }

    /// How this descriptor stands to `other`: as their versions do.
    pub fn cmp(&self, other: &Self) -> (res: Ordering)
        ensures
            res == self.ordering(*other),
    {
        self.version.compare(&other.version)
    }
}

impl<C: Default> Default for StandardFunction<C> {
    /// The version `0.0.0` bound to the default callable.
    fn default() -> (res: Self)
        ensures
            res.spec_version()@ == (0u8, 0u8, 0u8),
            call_ensures(C::default, (), res.spec_callback()),
    {
        StandardFunction { version: SemverVersion::default(), callback: C::default() }
    }
}

impl<C> PartialEq for StandardFunction<C> {
    /// Whether the two descriptors have the same version.
    fn eq(&self, other: &Self) -> (res: bool) {
        self.version == other.version
    }
}

impl<C> vstd::std_specs::cmp::PartialEqSpecImpl for StandardFunction<C> {
    open spec fn obeys_eq_spec() -> bool {
        true
    }

    open spec fn eq_spec(&self, other: &Self) -> bool {
        self.spec_version() == other.spec_version()
    }
}

impl<C> Eq for StandardFunction<C> {

}

impl<C> PartialOrd for StandardFunction<C> {
    /// How the two descriptors' versions stand to each other.
    fn partial_cmp(&self, other: &Self) -> (res: Option<Ordering>) {
        Some(self.version.compare(&other.version))
    }
}

impl<C> vstd::std_specs::cmp::PartialOrdSpecImpl for StandardFunction<C> {
    open spec fn obeys_partial_cmp_spec() -> bool {
        true
    }

    open spec fn partial_cmp_spec(&self, other: &Self) -> Option<Ordering> {
        Some(self.ordering(*other))
    }
}

impl<C> Hash for StandardFunction<C> {
    /// Feeds what the version feeds, and nothing of the callable.
    fn hash<H: Hasher>(&self, state: &mut H) {
        self.version.hash(state)
    }
}

/// Order and equality of descriptors go by the version alone: whatever callables two
/// descriptors hold, they stand to each other as their versions do, and they are equal
/// exactly where their versions are.
pub proof fn lemma_order_is_by_version<C>(a: StandardFunction<C>, b: StandardFunction<C>)
    ensures
        a.ordering(b) == a.spec_version().ordering(b.spec_version()),
        a.partial_cmp_spec(&b) == a.spec_version().partial_cmp_spec(&b.spec_version()),
        a.eq_spec(&b) <==> a.spec_version() == b.spec_version(),
        a.ordering(b) == Ordering::Equal <==> a.spec_version() == b.spec_version(),
{
    a.spec_version().lemma_view_injective(b.spec_version());
}

/// Two descriptors of one version are equal and stand equal, though they hold different
/// callables.
pub proof fn lemma_same_version_stands_equal<C>(a: StandardFunction<C>, b: StandardFunction<C>)
    requires
        a.spec_version() == b.spec_version(),
    ensures
        a.eq_spec(&b),
        a.ordering(b) == Ordering::Equal,
        a.partial_cmp_spec(&b) == Some(Ordering::Equal),
{
    lemma_order_is_by_version(a, b);
}

} // verus!
