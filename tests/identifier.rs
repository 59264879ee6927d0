use fzr::identifier::{parse_identifier, IdentifierError};

const V0: &str = "QmYwAPJzv5CZsnA625s3Xf2nemtYgPpHdWEz79ojWnPbdG";

#[test]
fn empty_identifier_is_malformed() {
    assert_eq!(parse_identifier("").unwrap_err(), IdentifierError::Malformed);
}

#[test]
fn garbage_identifier_is_malformed() {
    assert_eq!(
        parse_identifier("not an identifier").unwrap_err(),
        IdentifierError::Malformed
    );
    assert_eq!(parse_identifier("Q").unwrap_err(), IdentifierError::Malformed);
}

#[test]
fn v0_identifier_parses_to_its_multihash() {
    let bytes = parse_identifier(V0).unwrap();
    assert_eq!(bytes.len(), 34);
    assert_eq!(bytes[0], 0x12);
    assert_eq!(bytes[1], 0x20);
}

#[test]
fn ipfs_path_prefix_is_accepted() {
    let with_prefix = format!("/ipfs/{}", V0);
    assert_eq!(
        parse_identifier(&with_prefix).unwrap(),
        parse_identifier(V0).unwrap()
    );
}
