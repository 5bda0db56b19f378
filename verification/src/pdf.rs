//! The document bridge: reading permission flags from a PDF document's
//! encryption metadata and committing a new set by installing an
//! empty-password encryption state.
//!
//! The document itself is lopdf's; it is opaque here. The bridge keeps its
//! own record of the two facts the logic depends on — whether the document
//! is encrypted, and which permission flags it carries — establishes them
//! from the document when it takes one over, and keeps them in step with
//! every operation it performs.

use vstd::prelude::*;

use crate::perm::PermissionSet;

verus! {

/// Declares lopdf's `Document` type, which this library carries opaquely.
#[verifier::external_type_specification]
#[verifier::external_body]
pub struct ExDocument(lopdf::Document);

/// Position of the Printable flag in the host format's permission word.
pub const PRINTABLE_BIT: u64 = 4;

/// Position of the Modifiable flag.
pub const MODIFIABLE_BIT: u64 = 8;

/// Position of the Copyable flag.
pub const COPYABLE_BIT: u64 = 16;

/// Position of the Annotatable flag.
pub const ANNOTATABLE_BIT: u64 = 32;

/// Position of the Fillable flag.
pub const FILLABLE_BIT: u64 = 256;

/// Position of the CopyableForAccessibility flag.
pub const COPYABLE_FOR_ACCESSIBILITY_BIT: u64 = 512;

/// Position of the Assemblable flag.
pub const ASSEMBLABLE_BIT: u64 = 1024;

/// Position of the PrintableHighQuality flag.
pub const PRINTABLE_HIGH_QUALITY_BIT: u64 = 2048;

/// The permission word encoding a set: each set flag contributes its bit.
pub open spec fn bits_spec(s: PermissionSet) -> int {
    (if s.printable { PRINTABLE_BIT as int } else { 0 })
        + (if s.modifiable { MODIFIABLE_BIT as int } else { 0 })
        + (if s.copyable { COPYABLE_BIT as int } else { 0 })
        + (if s.annotatable { ANNOTATABLE_BIT as int } else { 0 })
        + (if s.fillable { FILLABLE_BIT as int } else { 0 })
        + (if s.copyable_for_accessibility { COPYABLE_FOR_ACCESSIBILITY_BIT as int } else { 0 })
        + (if s.assemblable { ASSEMBLABLE_BIT as int } else { 0 })
        + (if s.printable_high_quality { PRINTABLE_HIGH_QUALITY_BIT as int } else { 0 })
}

/// The set a permission word decodes to: one flag per defined bit; bits
/// outside the eight defined ones are ignored.
pub open spec fn from_bits_spec(bits: u64) -> PermissionSet {
    PermissionSet {
        printable: bits & PRINTABLE_BIT != 0,
        modifiable: bits & MODIFIABLE_BIT != 0,
        copyable: bits & COPYABLE_BIT != 0,
        annotatable: bits & ANNOTATABLE_BIT != 0,
        fillable: bits & FILLABLE_BIT != 0,
        copyable_for_accessibility: bits & COPYABLE_FOR_ACCESSIBILITY_BIT != 0,
        assemblable: bits & ASSEMBLABLE_BIT != 0,
        printable_high_quality: bits & PRINTABLE_HIGH_QUALITY_BIT != 0,
    }
}

/// The set that a read of a document's metadata yields: the decoded word
/// when metadata is present, and the full set when it is absent — a
/// document without encryption metadata allows everything.
pub open spec fn permissions_from_bits_spec(bits: Option<u64>) -> PermissionSet {
    match bits {
        Some(b) => from_bits_spec(b),
        None => PermissionSet::all_spec(),
    }
}

/// Encodes a set as the host format's permission word.
pub fn permission_bits(s: PermissionSet) -> (r: u64)
    ensures
        r == bits_spec(s),
{
    let mut b: u64 = 0;
    if s.printable {
        b = b + PRINTABLE_BIT;
    }
    if s.modifiable {
        b = b + MODIFIABLE_BIT;
    }
    if s.copyable {
        b = b + COPYABLE_BIT;
    }
    if s.annotatable {
        b = b + ANNOTATABLE_BIT;
    }
    if s.fillable {
        b = b + FILLABLE_BIT;
    }
    if s.copyable_for_accessibility {
        b = b + COPYABLE_FOR_ACCESSIBILITY_BIT;
    }
    if s.assemblable {
        b = b + ASSEMBLABLE_BIT;
    }
    if s.printable_high_quality {
        b = b + PRINTABLE_HIGH_QUALITY_BIT;
    }
    b
}

/// Decodes a permission word, ignoring bits outside the defined eight.
pub fn permissions_from_raw(bits: u64) -> (r: PermissionSet)
    ensures
        r == from_bits_spec(bits),
{
    PermissionSet {
        printable: bits & PRINTABLE_BIT != 0,
        modifiable: bits & MODIFIABLE_BIT != 0,
        copyable: bits & COPYABLE_BIT != 0,
        annotatable: bits & ANNOTATABLE_BIT != 0,
        fillable: bits & FILLABLE_BIT != 0,
        copyable_for_accessibility: bits & COPYABLE_FOR_ACCESSIBILITY_BIT != 0,
        assemblable: bits & ASSEMBLABLE_BIT != 0,
        printable_high_quality: bits & PRINTABLE_HIGH_QUALITY_BIT != 0,
    }
}

/// What a read of a document's permission word yields as a set.
pub fn permissions_from_bits(bits: Option<u64>) -> (r: PermissionSet)
    ensures
        r == permissions_from_bits_spec(bits),
{
    match bits {
        Some(b) => permissions_from_raw(b),
        None => PermissionSet::all(),
    }
}

/// Encoding a set as a permission word and decoding that word yields the
/// set back: what is committed is what a later read of the word reports.
pub proof fn lemma_bits_round_trip(s: PermissionSet)
    ensures
        from_bits_spec(bits_spec(s) as u64) == s,
{
    let p: u64 = if s.printable { 4 } else { 0 };
    let m: u64 = if s.modifiable { 8 } else { 0 };
    let c: u64 = if s.copyable { 16 } else { 0 };
    let a: u64 = if s.annotatable { 32 } else { 0 };
    let f: u64 = if s.fillable { 256 } else { 0 };
    let x: u64 = if s.copyable_for_accessibility { 512 } else { 0 };
    let t: u64 = if s.assemblable { 1024 } else { 0 };
    let q: u64 = if s.printable_high_quality { 2048 } else { 0 };
    let b: u64 = (bits_spec(s) as u64);
    assert((b & 4 != 0 <==> p == 4) && (b & 8 != 0 <==> m == 8) && (b & 16 != 0 <==> c == 16)
        && (b & 32 != 0 <==> a == 32) && (b & 256 != 0 <==> f == 256) && (b & 512 != 0 <==> x
        == 512) && (b & 1024 != 0 <==> t == 1024) && (b & 2048 != 0 <==> q == 2048))
        by (bit_vector)
        requires
            b == p + m + c + a + f + x + t + q,
            p == 4 || p == 0,
            m == 8 || m == 0,
            c == 16 || c == 0,
            a == 32 || a == 0,
            f == 256 || f == 0,
            x == 512 || x == 0,
            t == 1024 || t == 0,
            q == 2048 || q == 0,
    ;
}

/// How committing a permission set can fail.
#[derive(Debug, PartialEq)]
pub enum PdfPermError {
    /// The document already carries an encryption state, which this
    /// library refuses to overwrite.
    AlreadyEncrypted,
    /// The encryption layer failed; the message is its report.
    Encryption(String),
}

/// Whether a document's trailer references an encryption dictionary — the
/// fact lopdf's `Document::is_encrypted` reports, a function of the
/// document alone.
pub uninterp spec fn doc_encrypted_of(d: lopdf::Document) -> bool;

/// The permission word held in a document's decoded encryption metadata,
/// if any — what lopdf's `EncryptionState::permissions` reports, a
/// function of the document alone.
pub uninterp spec fn doc_bits_of(d: lopdf::Document) -> Option<u64>;

/// Whether building an empty-password encryption state with the given
/// permission word and installing it succeeds on a document. lopdf's
/// revision-2 path is deterministic (key derivation and object encryption
/// depend only on the document and the word), so this is a function of
/// its arguments alone.
pub uninterp spec fn install_ok_of(d: lopdf::Document, bits: u64) -> bool;

/// Relies on lopdf's `Document::is_encrypted`: whether the document's
/// trailer currently references an encryption dictionary.
#[verifier::external_body]
fn doc_is_encrypted(doc: &lopdf::Document) -> (r: bool)
    ensures
        r == doc_encrypted_of(*doc),
{
    doc.is_encrypted()
}

/// Relies on lopdf's `EncryptionState::permissions` and
/// `Permissions::bits`: the permission word stored in the document's
/// decoded encryption metadata, if any is present.
#[verifier::external_body]
fn read_permission_bits(doc: &lopdf::Document) -> (r: Option<u64>)
    ensures
        r == doc_bits_of(*doc),
{
    doc.encryption_state.as_ref().map(|state| state.permissions().bits())
}

/// Relies on lopdf's `EncryptionVersion::V1`, its conversion into an
/// `EncryptionState`, and `Document::encrypt`: builds an empty-password
/// encryption state carrying the given permission word and installs it.
/// `Document::encrypt` reports `AlreadyEncrypted` when the trailer already
/// references an encryption dictionary.
#[verifier::external_body]
fn install_encryption(doc: &mut lopdf::Document, bits: u64) -> (r: Result<(), PdfPermError>)
    ensures
        (r is Ok) == install_ok_of(*old(doc), bits),
{
    let permissions = lopdf::Permissions::from_bits_truncate(bits);
    let version = lopdf::EncryptionVersion::V1 {
        document: &*doc, owner_password: "", user_password: "", permissions,
    };
    let state: lopdf::EncryptionState = match version.try_into() {
        Ok(state) => state,
        Err(e) => return Err(PdfPermError::Encryption(format!("{e}"))),
    };
    match doc.encrypt(&state) {
        Ok(()) => Ok(()),
        Err(lopdf::Error::AlreadyEncrypted) => Err(PdfPermError::AlreadyEncrypted),
        Err(e) => Err(PdfPermError::Encryption(format!("{e}"))),
    }
}

/// A PDF document together with this library's record of its encryption
/// state and permission flags.
pub struct PdfDoc {
    inner: lopdf::Document,
    encrypted: bool,
    perms: PermissionSet,
}

impl PdfDoc {
    /// The wrapped document.
    pub closed spec fn doc_view(self) -> lopdf::Document {
        self.inner
    }

    /// The record of whether the document carries an encryption state.
    pub closed spec fn encrypted_view(self) -> bool {
        self.encrypted
    }

    /// The record of the document's permission flags.
    pub closed spec fn perms_view(self) -> PermissionSet {
        self.perms
    }

    /// Takes over a document, reading its encryption state and permission
    /// flags; a document without encryption metadata reads as allowing
    /// everything.
    pub fn from_document(document: lopdf::Document) -> (r: PdfDoc)
        ensures
            r.doc_view() == document,
            r.encrypted_view() == doc_encrypted_of(document),
            r.perms_view() == permissions_from_bits_spec(doc_bits_of(document)),
    {
        let encrypted = doc_is_encrypted(&document);
        let bits = read_permission_bits(&document);
        let perms = permissions_from_bits(bits);
        PdfDoc { inner: document, encrypted, perms }
    }

    /// The document's permission flags as read at takeover, or as last
    /// committed.
    pub fn permissions(&self) -> (r: PermissionSet)
        ensures
            r == self.perms_view(),
    {
        self.perms
    }

    /// Whether the document carries an encryption state.
    pub fn is_encrypted(&self) -> (r: bool)
        ensures
            r == self.encrypted_view(),
    {
        self.encrypted
    }

    /// Commits a permission set by installing an empty-password encryption
    /// state carrying it. Refuses a document that is already encrypted,
    /// leaving it untouched; otherwise it succeeds exactly when the
    /// install of the set's permission word does, and on success the
    /// document is encrypted and carries the committed set.
    pub fn set_permissions(&mut self, permissions: PermissionSet) -> (r: Result<
        (),
        PdfPermError,
    >)
        ensures
            old(self).encrypted_view() ==> r == Err::<(), PdfPermError>(
                PdfPermError::AlreadyEncrypted,
            ) && *final(self) == *old(self),
            !old(self).encrypted_view() ==> (r is Ok) == install_ok_of(
                old(self).doc_view(),
                bits_spec(permissions) as u64,
            ),
            !old(self).encrypted_view() && r is Ok ==> final(self).encrypted_view()
                && final(self).perms_view() == permissions,
            !old(self).encrypted_view() && r is Err ==> !final(self).encrypted_view()
                && final(self).perms_view() == old(self).perms_view(),
    {
        if self.encrypted {
            return Err(PdfPermError::AlreadyEncrypted);
        }
        let bits = permission_bits(permissions);
        match install_encryption(&mut self.inner, bits) {
            Ok(()) => {
                self.encrypted = true;
                self.perms = permissions;
                Ok(())
            },
            Err(e) => Err(e),
        }
    }

    /// Hands the document back, for saving or further work outside this
    /// library.
    pub fn into_document(self) -> (r: lopdf::Document)
        ensures
            r == self.doc_view(),
    {
        self.inner
    }
}

} // verus!
