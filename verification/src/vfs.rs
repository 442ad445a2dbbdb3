//! The changes that the engine asks of the store that holds the documents.

use vstd::prelude::*;
use crate::span::Span;

verus! {

/// One change to a document of the store.
#[derive(Debug, PartialEq, Eq)]
pub enum Change {
    /// Sets the whole text of a file, which may be new to the store.
    AddFile { file: std::path::PathBuf, text: String },
    /// Replaces the text of a span, which the sender says is `len` long.
    ReplaceText { span: Span, len: Option<u64>, text: String },
}

} // verus!
