use lopdf::{Document, Object};
use pdf_perm::codec::ShortFlags;
use pdf_perm::pdf::{PdfDoc, PdfPermError};
use pdf_perm::perm::PermissionSet;

fn ps(
    printable: bool,
    modifiable: bool,
    copyable: bool,
    annotatable: bool,
    fillable: bool,
    copyable_for_accessibility: bool,
    assemblable: bool,
    printable_high_quality: bool,
) -> PermissionSet {
    PermissionSet {
        printable,
        modifiable,
        copyable,
        annotatable,
        fillable,
        copyable_for_accessibility,
        assemblable,
        printable_high_quality,
    }
}

fn create_test_document() -> Document {
    let mut doc = Document::new();

    doc.trailer.set(
        "ID",
        Object::Array(vec![
            Object::string_literal(b"ABC"),
            Object::string_literal(b"DEF"),
        ]),
    );

    doc
}

#[test]
fn test_permissions() {
    let doc = create_test_document();
    let mut pdoc = PdfDoc::from_document(doc);
    // A document without encryption metadata allows everything.
    assert_eq!(pdoc.permissions(), PermissionSet::all());

    let pma_permissions = PermissionSet::from_str("pma");
    pdoc.set_permissions(pma_permissions).unwrap();

    let mut buffer = Vec::new();
    let mut doc = pdoc.into_document();
    doc.save_to(&mut buffer).unwrap();

    let doc = Document::load_mem(&buffer).unwrap();
    let pdoc = PdfDoc::from_document(doc);
    assert_eq!(pdoc.permissions(), pma_permissions);
}

#[test]
fn test_commit_to_encrypted_document_fails() {
    let committed = PermissionSet::from_str("p");
    let doc = create_test_document();
    let mut pdoc = PdfDoc::from_document(doc);
    assert!(!pdoc.is_encrypted());
    pdoc.set_permissions(committed).unwrap();
    assert!(pdoc.is_encrypted());

    // An encrypted document refuses a further commit, whatever set is
    // offered, also after being taken over afresh.
    let mut pdoc = PdfDoc::from_document(pdoc.into_document());
    assert!(pdoc.is_encrypted());
    let result = pdoc.set_permissions(PermissionSet::all());
    assert_eq!(result, Err(PdfPermError::AlreadyEncrypted));
    let result = pdoc.set_permissions(PermissionSet::empty());
    assert_eq!(result, Err(PdfPermError::AlreadyEncrypted));

    // What reaches disk still carries the originally committed set: the
    // failed commits changed nothing.
    let mut doc = pdoc.into_document();
    let mut buffer = Vec::new();
    doc.save_to(&mut buffer).unwrap();
    let reloaded = Document::load_mem(&buffer).unwrap();
    let pdoc = PdfDoc::from_document(reloaded);
    assert_eq!(pdoc.permissions(), committed);
}

#[test]
fn test_commit_without_file_id_reports_encryption_error() {
    // Building the encryption state needs the trailer's file ID; a fresh
    // document without one yields the encryption-layer error, not the
    // already-encrypted one, and the record is unchanged.
    let doc = Document::new();
    let mut pdoc = PdfDoc::from_document(doc);
    let result = pdoc.set_permissions(PermissionSet::all());
    assert!(matches!(result, Err(PdfPermError::Encryption(_))));
    assert!(!pdoc.is_encrypted());
    assert_eq!(pdoc.permissions(), PermissionSet::all());
}

#[test]
fn test_end_to_end() {
    let doc = create_test_document();
    let mut pdoc = PdfDoc::from_document(doc);
    assert!(!pdoc.is_encrypted());
    assert_eq!(pdoc.permissions(), PermissionSet::all());

    let mut perm = pdoc.permissions();
    perm.apply_modification("=pma");
    let expected = ps(true, true, false, true, false, false, false, false);
    assert_eq!(perm, expected);
    assert_eq!(perm.summary(), "pm-a----");

    pdoc.set_permissions(perm).unwrap();
    assert!(pdoc.is_encrypted());
    assert_eq!(pdoc.permissions(), expected);

    let mut doc = pdoc.into_document();
    let mut buffer = Vec::new();
    doc.save_to(&mut buffer).unwrap();

    let reloaded = Document::load_mem(&buffer).unwrap();
    let pdoc = PdfDoc::from_document(reloaded);
    assert_eq!(pdoc.permissions(), expected);
}
