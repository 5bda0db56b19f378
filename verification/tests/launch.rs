use pdf_perm::launch::is_desec;

#[test]
fn test_plain_names() {
    assert!(is_desec("desec"));
    assert!(is_desec("desecure"));
    assert!(is_desec("pdf-desec"));
    assert!(is_desec("pdf-desecure"));
}

#[test]
fn test_case_insensitive() {
    assert!(is_desec("DeSec"));
    assert!(is_desec("PDF-DESECURE"));
    assert!(is_desec("Pdf-Desecure"));
}

#[test]
fn test_with_path_and_extension() {
    assert!(is_desec("/usr/local/bin/pdf-desecure"));
    assert!(is_desec("target/release/desec.exe"));
    assert!(is_desec("./pdf-desec.bin"));
}

#[test]
fn test_trailing_slashes_ignored() {
    assert!(is_desec("desec/"));
    assert!(is_desec("pdf-desecure///"));
    assert!(is_desec("/usr/local/bin/desec/"));
    assert!(!is_desec("/"));
    assert!(!is_desec("//"));
    assert!(!is_desec("desec/b"));
}

#[test]
fn test_other_names() {
    assert!(!is_desec("pdf-perm"));
    assert!(!is_desec("desecr"));
    assert!(!is_desec("xdesec"));
    assert!(!is_desec(""));
    assert!(!is_desec(".desec"));
    assert!(!is_desec("undesec"));
}
