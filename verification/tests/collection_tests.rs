//! Tests for the `collection.db` decoder.

use osu_db_parser::collections::CollectionListing;
use osu_db_parser::error::Error;

/// Appends an osu! string encoding of `s` (tag 0x0b) to `out`.
fn push_string(out: &mut Vec<u8>, s: &str) {
    out.push(0x0b);
    assert!(s.len() < 0x80);
    out.push(s.len() as u8);
    out.extend_from_slice(s.as_bytes());
}

#[test]
fn collection_listing_decodes() {
    let mut d = Vec::new();
    d.extend_from_slice(&20150203u32.to_le_bytes());
    d.extend_from_slice(&2u32.to_le_bytes()); // two collections

    push_string(&mut d, "favourites");
    d.extend_from_slice(&2u32.to_le_bytes());
    push_string(&mut d, "aaaaaaaaaaaaaaaaaaaaaaaaaaaaaaaa");
    push_string(&mut d, "bbbbbbbbbbbbbbbbbbbbbbbbbbbbbbbb");

    d.push(0x00); // a collection whose name is absent
    d.extend_from_slice(&0u32.to_le_bytes());

    let listing = CollectionListing::from_bytes(&d).unwrap();
    assert_eq!(listing.version, 20150203);
    assert_eq!(listing.collections.len(), 2);
    assert_eq!(listing.collections[0].name, Some("favourites".to_string()));
    assert_eq!(
        listing.collections[0].beatmap_md5s,
        vec![
            Some("aaaaaaaaaaaaaaaaaaaaaaaaaaaaaaaa".to_string()),
            Some("bbbbbbbbbbbbbbbbbbbbbbbbbbbbbbbb".to_string()),
        ]
    );
    assert_eq!(listing.collections[1].name, None);
    assert_eq!(listing.collections[1].beatmap_md5s, Vec::new());

    // Trailing bytes after the listing are tolerated here
    d.push(0xAB);
    assert!(CollectionListing::from_bytes(&d).is_ok());
}

#[test]
fn collection_listing_rejects_truncation_and_bad_tags() {
    let mut d = Vec::new();
    d.extend_from_slice(&20150203u32.to_le_bytes());
    d.extend_from_slice(&1u32.to_le_bytes());
    push_string(&mut d, "partial");
    d.extend_from_slice(&3u32.to_le_bytes()); // declares three hashes
    push_string(&mut d, "cccccccccccccccccccccccccccccccc"); // but holds one

    assert!(matches!(
        CollectionListing::from_bytes(&d),
        Err(Error::UnexpectedEof { .. })
    ));

    // A bad string tag inside a collection name is fatal
    let mut bad = Vec::new();
    bad.extend_from_slice(&20150203u32.to_le_bytes());
    bad.extend_from_slice(&1u32.to_le_bytes());
    bad.push(0x07);
    assert!(matches!(
        CollectionListing::from_bytes(&bad),
        Err(Error::UnknownStringTag { offset: 8, tag: 0x07 })
    ));
}
