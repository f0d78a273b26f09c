//! Why a declaration is turned down.

use vstd::prelude::*;

verus! {

/// The two ways in which the transformation of one declaration ends without
/// output. Neither is recovered from: the declaration is given up.
#[derive(Debug, Clone, Copy, PartialEq, Eq)]
pub enum TransformError {
    /// The input is not a struct declaration of one of the three shapes, or a
    /// part of it does not parse.
    MalformedDeclaration,
    /// The formatter could not lay out the source text that the generated
    /// documentation shows.
    UnformattableSource,
}

impl TransformError {
    /// What went wrong, for a diagnostic.
    pub open spec fn message_text(self) -> Seq<char> {
        match self {
            TransformError::MalformedDeclaration => "malformed struct declaration"@,
            TransformError::UnformattableSource => "could not format source for documentation"@,
        }
    }

    /// What went wrong, for a diagnostic.
    pub fn message(&self) -> (r: String)
        ensures
            r@ == self.message_text(),
    {
        match self {
            TransformError::MalformedDeclaration => String::from_str(
                "malformed struct declaration",
            ),
            TransformError::UnformattableSource => String::from_str(
                "could not format source for documentation",
            ),
        }
    }
}

} // verus!
