//! The parse failure taxonomy.  Every failure aborts the whole parse: the
//! caller sees exactly one error describing the first failure in document
//! order, and no partial playlist.

use vstd::prelude::*;
use crate::attrs::AttrKey;

verus! {

/// The declaration kinds that carry an attribute list.
#[derive(Debug, PartialEq, Eq, Structural, Clone, Copy)]
pub enum Declaration {
    Audio,
    Stream,
    Iframe,
}

/// A failure of the whole parse call.
#[derive(Debug, PartialEq, Eq)]
pub enum HlsError {
    /// Finalizing a declaration found a mandatory attribute unset.
    MissingRequiredAttribute { declaration: Declaration, attribute: AttrKey },
    /// An attribute value failed its primitive conversion.
    MalformedAttributeValue { declaration: Declaration, attribute: AttrKey, raw_value: String },
    /// An attribute key is not in the declaration's known set.
    UnrecognizedAttribute { declaration: Declaration, attribute: AttrKey },
    /// The remaining text at this character offset matches no recognizer.
    UnparsableInput { offset: usize },
}

/// Mathematical image of an [`HlsError`].
pub ghost enum ErrView {
    MissingRequiredAttribute { declaration: Declaration, attribute: AttrKey },
    MalformedAttributeValue { declaration: Declaration, attribute: AttrKey, raw_value: Seq<char> },
    UnrecognizedAttribute { declaration: Declaration, attribute: AttrKey },
    UnparsableInput { offset: int },
}

impl View for HlsError {
    type V = ErrView;

    open spec fn view(&self) -> ErrView {
        match self {
            HlsError::MissingRequiredAttribute { declaration, attribute } =>
                ErrView::MissingRequiredAttribute {
                declaration: *declaration,
                attribute: *attribute,
            },
            HlsError::MalformedAttributeValue { declaration, attribute, raw_value } =>
                ErrView::MalformedAttributeValue {
                declaration: *declaration,
                attribute: *attribute,
                raw_value: raw_value@,
            },
            HlsError::UnrecognizedAttribute { declaration, attribute } =>
                ErrView::UnrecognizedAttribute {
                declaration: *declaration,
                attribute: *attribute,
            },
            HlsError::UnparsableInput { offset } => ErrView::UnparsableInput {
                offset: *offset as int,
            },
        }
    }
}

} // verus!
