//! Semantic versions of wallet capabilities.

use core::cmp::Ordering;
use core::hash::Hash;
use core::hash::Hasher;
use vstd::prelude::*;

verus! {

/// A semantic version: major, minor and patch number.
///
/// Versions are ordered by major number, then minor, then patch.
#[derive(Debug, Clone, Copy, PartialEq, Eq, Structural, Ord)]
pub struct SemverVersion {
    major: u8,
    minor: u8,
    patch: u8,
}

impl View for SemverVersion {
    type V = (u8, u8, u8);

    closed spec fn view(&self) -> (u8, u8, u8) {
        (self.major, self.minor, self.patch)
    }
}

/// How the triple `a` stands to the triple `b`, component by component from the left.
pub open spec fn triple_ordering(a: (u8, u8, u8), b: (u8, u8, u8)) -> Ordering {
    if a.0 < b.0 {
        Ordering::Less
    } else if a.0 > b.0 {
        Ordering::Greater
    } else if a.1 < b.1 {
        Ordering::Less
    } else if a.1 > b.1 {
        Ordering::Greater
    } else if a.2 < b.2 {
        Ordering::Less
    } else if a.2 > b.2 {
        Ordering::Greater
    } else {
        Ordering::Equal
    }
}

impl SemverVersion {
    /// The version `major.minor.patch`.
    pub fn new(major: u8, minor: u8, patch: u8) -> (res: Self)
        ensures
            res@ == (major, minor, patch),
    {
        SemverVersion { major, minor, patch }
    }

    /// The major number.
    pub fn major(&self) -> (res: u8)
        ensures
            res == self@.0,
    {
        self.major
    }

    /// The minor number.
    pub fn minor(&self) -> (res: u8)
        ensures
            res == self@.1,
    {
        self.minor
    }

    /// The patch number.
    pub fn patch(&self) -> (res: u8)
        ensures
            res == self@.2,
    {
        self.patch
    }

    /// How this version stands to `other`.
    pub open spec fn ordering(self, other: Self) -> Ordering {
        triple_ordering(self@, other@)
    }

    /// How this version stands to `other`: by the major numbers, then by the minor ones, then
    /// by the patch numbers.
    pub fn compare(&self, other: &Self) -> (res: Ordering)
        ensures
            res == self.ordering(*other),
    {
        if self.major < other.major {
            Ordering::Less
        } else if self.major > other.major {
            Ordering::Greater
        } else if self.minor < other.minor {
            Ordering::Less
        } else if self.minor > other.minor {
            Ordering::Greater
        } else if self.patch < other.patch {
            Ordering::Less
        } else if self.patch > other.patch {
            Ordering::Greater
        } else {
            Ordering::Equal
        }
    }

    /// Two versions with the same three numbers are the same version.
    pub proof fn lemma_view_injective(self, other: Self)
        ensures
            self@ == other@ <==> self == other,
    {
    }
}

impl Default for SemverVersion {
    /// The version `0.0.0`.
    fn default() -> (res: Self)
        ensures
            res@ == (0u8, 0u8, 0u8),
    {
        SemverVersion { major: 0, minor: 0, patch: 0 }
    }
}

impl PartialOrd for SemverVersion {
    fn partial_cmp(&self, other: &Self) -> (res: Option<Ordering>) {
        Some(self.compare(other))
    }
}

impl vstd::std_specs::cmp::PartialOrdSpecImpl for SemverVersion {
    open spec fn obeys_partial_cmp_spec() -> bool {
        true
    }

    open spec fn partial_cmp_spec(&self, other: &Self) -> Option<Ordering> {
        Some(self.ordering(*other))
    }
}

/// Feeds one byte to a hasher: `Hasher::write_u8`. Nothing is known of the hasher's state.
#[verifier::external_body]
fn write_byte<H: Hasher>(state: &mut H, byte: u8) {
    state.write_u8(byte)
}

impl Hash for SemverVersion {
    /// Feeds the major, the minor and the patch number, in this order.
    fn hash<H: Hasher>(&self, state: &mut H) {
        write_byte(state, self.major);
        write_byte(state, self.minor);
        write_byte(state, self.patch);
    }
}

/// The versions are totally ordered: two versions stand equal exactly when they are the same,
/// each order read backwards is the opposite order, and the order is transitive.
pub proof fn lemma_version_order_is_total(a: SemverVersion, b: SemverVersion, c: SemverVersion)
    ensures
        a.ordering(b) == Ordering::Equal <==> a == b,
        a.ordering(b) == Ordering::Less <==> b.ordering(a) == Ordering::Greater,
        a.ordering(b) == Ordering::Less && b.ordering(c) == Ordering::Less ==> a.ordering(c)
            == Ordering::Less,
{
}

} // verus!
