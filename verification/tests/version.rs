use std::cmp::Ordering;
use std::collections::hash_map::DefaultHasher;
use std::hash::Hash;
use std::hash::Hasher;
use wallet_adapter::version::SemverVersion;

fn digest_of_version(version: &SemverVersion) -> u64 {
    let mut hasher = DefaultHasher::new();
    version.hash(&mut hasher);
    hasher.finish()
}

#[test]
fn version_numbers_are_kept() {
    let version = SemverVersion::new(1, 2, 3);
    assert_eq!(version.major(), 1);
    assert_eq!(version.minor(), 2);
    assert_eq!(version.patch(), 3);
}

#[test]
fn version_limits_are_kept() {
    let version = SemverVersion::new(0, 255, 0);
    assert_eq!((version.major(), version.minor(), version.patch()), (0, 255, 0));
}

#[test]
fn versions_order_by_major_first() {
    let low = SemverVersion::new(1, 9, 9);
    let high = SemverVersion::new(2, 0, 0);
    assert_eq!(low.compare(&high), Ordering::Less);
    assert_eq!(high.compare(&low), Ordering::Greater);
    assert_eq!(low.partial_cmp(&high), Some(Ordering::Less));
    assert!(low < high);
    assert!(high > low);
}

#[test]
fn versions_order_by_minor_then_patch() {
    let a = SemverVersion::new(1, 2, 9);
    let b = SemverVersion::new(1, 3, 0);
    let c = SemverVersion::new(1, 3, 1);
    assert_eq!(a.compare(&b), Ordering::Less);
    assert_eq!(b.compare(&c), Ordering::Less);
    assert_eq!(a.compare(&c), Ordering::Less);
    assert_eq!(c.compare(&b), Ordering::Greater);
    assert_eq!(c.partial_cmp(&a), Some(Ordering::Greater));
}

#[test]
fn equal_versions_stand_equal() {
    let a = SemverVersion::new(4, 5, 6);
    let b = SemverVersion::new(4, 5, 6);
    assert_eq!(a, b);
    assert_eq!(a.compare(&b), Ordering::Equal);
    assert_eq!(a.partial_cmp(&b), Some(Ordering::Equal));
    assert!(a <= b && a >= b);
}

#[test]
fn compare_agrees_with_the_total_order() {
    let versions = [
        SemverVersion::new(0, 0, 0),
        SemverVersion::new(0, 0, 1),
        SemverVersion::new(0, 1, 0),
        SemverVersion::new(1, 0, 0),
        SemverVersion::new(1, 0, 255),
        SemverVersion::new(255, 255, 255),
    ];
    for (i, a) in versions.iter().enumerate() {
        for (j, b) in versions.iter().enumerate() {
            assert_eq!(a.compare(b), i.cmp(&j));
            assert_eq!(a.compare(b), Ord::cmp(a, b));
            assert_eq!(a.partial_cmp(b), Some(i.cmp(&j)));
        }
    }
}

#[test]
fn sorting_versions_puts_the_lowest_first() {
    let mut versions = vec![
        SemverVersion::new(1, 1, 0),
        SemverVersion::new(0, 9, 9),
        SemverVersion::new(1, 0, 7),
    ];
    versions.sort();
    assert_eq!(
        versions,
        vec![
            SemverVersion::new(0, 9, 9),
            SemverVersion::new(1, 0, 7),
            SemverVersion::new(1, 1, 0),
        ]
    );
}

#[test]
fn a_version_feeds_its_three_numbers_to_a_hasher() {
    let mut expected = DefaultHasher::new();
    expected.write_u8(1);
    expected.write_u8(2);
    expected.write_u8(3);
    assert_eq!(digest_of_version(&SemverVersion::new(1, 2, 3)), expected.finish());
}

#[test]
fn equal_versions_hash_alike_and_others_do_not() {
    let a = SemverVersion::new(1, 2, 3);
    assert_eq!(digest_of_version(&a), digest_of_version(&SemverVersion::new(1, 2, 3)));
    assert_ne!(digest_of_version(&a), digest_of_version(&SemverVersion::new(1, 2, 4)));
    assert_ne!(digest_of_version(&a), digest_of_version(&SemverVersion::new(3, 2, 1)));
}

#[test]
fn the_default_version_is_zero() {
    assert_eq!(SemverVersion::default(), SemverVersion::new(0, 0, 0));
}
