use data_eater_core::document::DocumentRef;
use data_eater_core::snowflake::Snowflake;

#[test]
fn document_refs_compare_like_their_identifiers() {
    let a = DocumentRef(Snowflake::try_from_raw(5).unwrap());
    let b = DocumentRef(Snowflake::try_from_raw(9).unwrap());
    assert!(a < b);
    assert_ne!(a, b);
    assert_eq!(a, DocumentRef(a.id()));
    assert_eq!(a.id().to_raw(), 5);
}
