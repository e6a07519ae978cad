use specta::specta_id::{ImplLocation, SpectaID};
use specta::text::{compare_names, fingerprint, NameOrder};
use std::cmp::Ordering;

#[test]
fn equality_goes_by_fingerprint_alone() {
    let a = SpectaID::new("alpha", 7);
    let b = SpectaID::new("beta", 7);
    let c = SpectaID::new("alpha", 8);
    assert!(a == b);
    assert!(b == a);
    assert!(a == a);
    assert!(a != c);
}

#[test]
fn name_decides_before_fingerprint() {
    let a = SpectaID::new("alpha", 900);
    let b = SpectaID::new("beta", 1);
    assert_eq!(a.cmp(&b), Ordering::Less);
    assert_eq!(b.cmp(&a), Ordering::Greater);
    assert_eq!(a.partial_cmp(&b), Some(Ordering::Less));
    assert!(a < b);
}

#[test]
fn fingerprint_breaks_ties_of_names() {
    let a = SpectaID::new("same", 1);
    let b = SpectaID::new("same", 2);
    assert_eq!(a.cmp(&b), Ordering::Less);
    assert_eq!(b.cmp(&a), Ordering::Greater);
    assert_eq!(a.cmp(&a), Ordering::Equal);
}

#[test]
fn a_prefix_stands_before_the_longer_name() {
    let a = SpectaID::new("ab", 5);
    let b = SpectaID::new("abc", 1);
    let e = SpectaID::new("", 9);
    assert_eq!(a.cmp(&b), Ordering::Less);
    assert_eq!(e.cmp(&a), Ordering::Less);
}

#[test]
fn sorting_twice_gives_the_same_sequence() {
    let mut ids = vec![
        SpectaID::new("b", 2),
        SpectaID::new("a", 9),
        SpectaID::new("b", 1),
        SpectaID::new("a", 3),
    ];
    ids.sort_by(|x, y| x.cmp(y));
    let once: Vec<(String, u64)> = ids.iter().map(|i| (i.name().to_string(), i.hash())).collect();
    ids.sort_by(|x, y| x.cmp(y));
    let twice: Vec<(String, u64)> = ids.iter().map(|i| (i.name().to_string(), i.hash())).collect();
    assert_eq!(once, twice);
    assert_eq!(
        once,
        vec![
            ("a".to_string(), 3),
            ("a".to_string(), 9),
            ("b".to_string(), 1),
            ("b".to_string(), 2)
        ]
    );
}

#[test]
fn impl_location_gives_its_text() {
    let l = ImplLocation::new("src/lib.rs:10:1");
    assert_eq!(l.as_str(), "src/lib.rs:10:1");
}

#[test]
fn names_compare_byte_by_byte() {
    assert_eq!(compare_names("a", "b"), NameOrder::Less);
    assert_eq!(compare_names("b", "a"), NameOrder::Greater);
    assert_eq!(compare_names("abc", "abc"), NameOrder::Equal);
    assert_eq!(compare_names("", ""), NameOrder::Equal);
    assert_eq!(compare_names("Z", "a"), NameOrder::Less);
    assert_eq!(compare_names("a", "\u{e9}"), NameOrder::Less);
    assert_eq!(compare_names("\u{e9}", "\u{4e2d}"), NameOrder::Less);
    assert_eq!(compare_names("ab", "a"), NameOrder::Greater);
}

#[test]
fn the_order_of_names_is_that_of_the_standard_library() {
    let names = ["", "a", "ab", "b", "B", "\u{e9}", "zz", "\u{1f600}", "a\u{0}"];
    for x in names {
        for y in names {
            let expected = match x.cmp(y) {
                Ordering::Less => NameOrder::Less,
                Ordering::Equal => NameOrder::Equal,
                Ordering::Greater => NameOrder::Greater,
            };
            assert_eq!(compare_names(x, y), expected);
        }
    }
}

#[test]
fn fingerprints_are_the_fnv_hash_of_the_path() {
    assert_eq!(fingerprint(""), 0xcbf2_9ce4_8422_2325);
    assert_eq!(fingerprint("a"), 0xaf63_dc4c_8601_ec8c);
    assert_eq!(fingerprint("std::time::Duration"), 0xfd8f_5947_3af6_327b);
    assert_eq!(fingerprint("std::convert::Infallible"), 0x9a20_8595_749d_c94f);
    assert_eq!(
        specta::impls::Infallible::definition().sid.hash(),
        fingerprint("std::convert::Infallible")
    );
}

#[test]
fn an_identity_from_a_path_has_the_fingerprint_of_the_path() {
    let a = SpectaID::from_path("Duration", "std::time::Duration");
    let b = SpectaID::from_path("Duration", "chrono::Duration");
    assert_eq!(a.name(), "Duration");
    assert_eq!(a.hash(), 0xfd8f_5947_3af6_327b);
    assert!(a != b);
    assert!(a == SpectaID::from_path("Other", "std::time::Duration"));
}
