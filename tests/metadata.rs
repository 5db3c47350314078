use dip721_mint::error::MintToolError;
use dip721_mint::metadata::{
    assemble_metadata, build_metadata_part, content_hash, content_type, resolve_location,
    ContentFile, LocationSource, MintRequest, DEFAULT_CONTENT_TYPE,
};
use dip721_mint::primitives::starts_with_scheme;
use dip721_mint::types::{MetadataKey, MetadataPurpose, MetadataVal};

fn request(
    content_address: Option<&str>,
    container: Option<Vec<u8>>,
    uri: Option<&str>,
    sha2: Option<&str>,
    sha2_auto: bool,
    file: Option<ContentFile>,
    mime_type: Option<&str>,
) -> Result<MintRequest, MintToolError> {
    MintRequest::new(
        content_address.map(String::from),
        container,
        uri.map(String::from),
        sha2.map(String::from),
        sha2_auto,
        file,
        mime_type.map(String::from),
    )
}

fn file(name: &str, data: &[u8]) -> ContentFile {
    ContentFile { name: name.to_string(), data: data.to_vec() }
}

fn keys(rec: &[(MetadataKey, MetadataVal)]) -> Vec<MetadataKey> {
    rec.iter().map(|e| e.0).collect()
}

#[test]
fn no_location_no_file_gives_default_record() {
    let req = request(None, None, None, None, false, None, None).unwrap();
    let rec = assemble_metadata(&req).unwrap();
    assert_eq!(keys(&rec), vec![MetadataKey::LocationType, MetadataKey::ContentType]);
    assert!(matches!(rec[0].1, MetadataVal::Nat8Content(4)));
    match &rec[1].1 {
        MetadataVal::TextContent(t) => assert_eq!(t, "application/octet-stream"),
        _ => panic!("content type is not text"),
    }
    assert_eq!(DEFAULT_CONTENT_TYPE, "application/octet-stream");
}

#[test]
fn uri_with_hex_hash_gives_uri_record() {
    let req = request(None, None, Some("https://example.com/a.png"), Some("deadbeef"), false, None, None)
        .unwrap();
    let rec = assemble_metadata(&req).unwrap();
    assert_eq!(
        keys(&rec),
        vec![
            MetadataKey::LocationType,
            MetadataKey::Location,
            MetadataKey::ContentHash,
            MetadataKey::ContentType
        ]
    );
    assert!(matches!(rec[0].1, MetadataVal::Nat8Content(3)));
    match &rec[1].1 {
        MetadataVal::TextContent(t) => assert_eq!(t, "https://example.com/a.png"),
        _ => panic!("location is not text"),
    }
    match &rec[2].1 {
        MetadataVal::BlobContent(b) => assert_eq!(b, &vec![0xDE, 0xAD, 0xBE, 0xEF]),
        _ => panic!("hash is not bytes"),
    }
}

#[test]
fn two_locations_are_rejected() {
    let r = request(None, Some(vec![4]), Some("https://example.com/a.png"), Some("00"), false, None, None);
    assert!(matches!(r, Err(MintToolError::ConflictingLocation)));
    let r = request(Some("x"), None, Some("https://example.com/a.png"), Some("00"), false, None, None);
    assert!(matches!(r, Err(MintToolError::ConflictingLocation)));
    let r = LocationSource::from_options(Some("x".to_string()), Some(vec![4]), None);
    assert!(matches!(r, Err(MintToolError::ConflictingLocation)));
}

#[test]
fn uri_without_hash_is_rejected() {
    let r = request(None, None, Some("https://example.com/a.png"), None, false, None, None);
    assert!(matches!(r, Err(MintToolError::MissingHash)));
    let r = request(None, None, Some("https://example.com/a.png"), None, true, None, None);
    assert!(matches!(r, Err(MintToolError::MissingHash)));
    let r = request(None, None, Some("https://example.com/a.png"), None, true, Some(file("a.png", b"x")), None);
    assert!(r.is_ok());
}

#[test]
fn malformed_hex_hash_is_rejected() {
    let req = request(None, None, None, Some("abc"), false, None, None).unwrap();
    assert!(matches!(assemble_metadata(&req), Err(MintToolError::MalformedHash)));
    let req = request(None, None, None, Some("zz"), false, None, None).unwrap();
    assert!(matches!(content_hash(&req), Err(MintToolError::MalformedHash)));
    let req = request(None, None, None, Some("DeAd"), false, None, None).unwrap();
    assert_eq!(content_hash(&req).unwrap(), Some(vec![0xDE, 0xAD]));
}

#[test]
fn invalid_uri_is_rejected() {
    let req = request(None, None, Some("not a uri"), Some("00"), false, None, None).unwrap();
    assert!(matches!(assemble_metadata(&req), Err(MintToolError::InvalidUri)));
}

#[test]
fn schemeless_text_with_colon_is_invalid_uri() {
    for text in ["://example.com/", "1:x", "", ":", "a b:c"] {
        let src = LocationSource::ExternalUri(text.to_string());
        assert!(matches!(resolve_location(&src), Err(MintToolError::InvalidUri)), "{text}");
    }
    assert!(starts_with_scheme("https://example.com/a.png"));
    assert!(starts_with_scheme("a+b-c.d:x"));
    assert!(!starts_with_scheme("1:x"));
    assert!(!starts_with_scheme("://example.com/"));
    assert!(!starts_with_scheme("https"));
}

#[test]
fn malformed_content_address_is_rejected() {
    let req = request(Some("not-a-cid"), None, None, None, false, None, Some("text/plain")).unwrap();
    assert!(matches!(assemble_metadata(&req), Err(MintToolError::MalformedIdentifier)));
}

#[test]
fn content_address_is_stored_in_binary_form() {
    let src = LocationSource::ContentAddress(
        "bafybeigdyrzt5sfp7udm7hu76uh7y26nf3efuylqabf3oclgtqy55fbzdi".to_string(),
    );
    let (code, value) = resolve_location(&src).unwrap();
    assert_eq!(code, 1);
    match value {
        Some(MetadataVal::BlobContent(b)) => {
            assert_eq!(b.len(), 36);
            assert_eq!(&b[..4], &[0x01, 0x70, 0x12, 0x20]);
        },
        _ => panic!("location is not bytes"),
    }
}

#[test]
fn container_reference_is_stored_as_principal_text() {
    let (code, value) = resolve_location(&LocationSource::ContainerReference(vec![4])).unwrap();
    assert_eq!(code, 2);
    match value {
        Some(MetadataVal::TextContent(t)) => assert_eq!(t, "2vxsx-fae"),
        _ => panic!("location is not text"),
    }
    let (_, value) = resolve_location(&LocationSource::ContainerReference(vec![])).unwrap();
    match value {
        Some(MetadataVal::TextContent(t)) => assert_eq!(t, "aaaaa-aa"),
        _ => panic!("location is not text"),
    }
    let too_long = LocationSource::ContainerReference(vec![1; 30]);
    assert!(matches!(resolve_location(&too_long), Err(MintToolError::MalformedIdentifier)));
}

#[test]
fn automatic_hash_is_sha256_of_content() {
    let req = request(None, None, None, None, true, Some(file("empty.bin", b"")), None).unwrap();
    let h = content_hash(&req).unwrap().unwrap();
    assert_eq!(
        h,
        hex_bytes("e3b0c44298fc1c149afbf4c8996fb92427ae41e4649b934ca495991b7852b855")
    );
    let req2 = request(None, None, None, None, true, Some(file("other.txt", b"abc")), None).unwrap();
    let h2 = content_hash(&req2).unwrap().unwrap();
    assert_eq!(
        h2,
        hex_bytes("ba7816bf8f01cfea414140de5dae2223b00361a396177a9cb410ff61f20015ad")
    );
    assert_eq!(content_hash(&req2).unwrap().unwrap(), h2);
    let no_auto = request(None, None, None, None, false, Some(file("a.txt", b"abc")), None).unwrap();
    assert_eq!(content_hash(&no_auto).unwrap(), None);
}

fn hex_bytes(s: &str) -> Vec<u8> {
    (0..s.len() / 2).map(|i| u8::from_str_radix(&s[2 * i..2 * i + 2], 16).unwrap()).collect()
}

#[test]
fn content_type_resolution_order() {
    let explicit = request(None, None, None, None, false, Some(file("a.png", b"")), Some("text/x-custom")).unwrap();
    assert_eq!(content_type(&explicit), "text/x-custom");
    let inferred = request(None, None, None, None, false, Some(file("a.png", b"")), None).unwrap();
    assert_eq!(content_type(&inferred), "image/png");
    let unknown = request(None, None, None, None, false, Some(file("a.zzzunknown", b"")), None).unwrap();
    assert_eq!(content_type(&unknown), "application/octet-stream");
}

#[test]
fn metadata_part_carries_record_and_content() {
    let req = request(None, None, None, None, true, Some(file("a.txt", b"abc")), None).unwrap();
    let part = build_metadata_part(req).unwrap();
    assert_eq!(part.purpose, MetadataPurpose::Rendered);
    assert_eq!(part.data, b"abc".to_vec());
    assert_eq!(
        keys(&part.key_val_data),
        vec![MetadataKey::LocationType, MetadataKey::ContentHash, MetadataKey::ContentType]
    );
    assert_eq!(MetadataKey::ContentHash.name(), "contentHash");
}
