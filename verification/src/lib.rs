//! Permission flags for PDF documents: a bit-set over the eight
//! document-level access flags, a compact one-character-per-flag codec with a
//! small modification grammar, and a bridge that reads and commits the flags
//! against a PDF document's encryption metadata.

pub mod codec;
pub mod launch;
pub mod pdf;
pub mod perm;
