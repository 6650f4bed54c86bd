//! Why a definition yields no methods.

use vstd::prelude::*;

verus! {

/// A failure of generation. Each one abandons the definition at hand as a
/// whole: no bundle is handed out for it, not even in part.
#[derive(Debug, Clone, Copy, PartialEq, Eq, Structural)]
pub enum GenerationError {
    /// The definition is not a tagged union.
    UnsupportedDefinitionKind,
    /// A variant's name is empty, or the method names derived from it
    /// would not be identifiers.
    InvalidVariantName,
    /// Two of the methods to generate would bear the same name.
    NameCollision,
}

} // verus!
