//! Accessor synthesis for tagged unions.
//!
//! Given the definition of a tagged union (a type with a fixed set of
//! variants, each carrying zero or more positional payload fields), this
//! crate derives for every variant a standard set of operations:
//!
//! * `is_<stem>`: does the receiver hold this variant?
//! * `as_<stem>`: a shared view of the payload, if the receiver holds it;
//! * `as_<stem>_mut`: an exclusive view of the payload, if the receiver
//!   holds it;
//! * `into_<stem>`: the owned payload; on another variant the call aborts.
//!
//! A variant without a payload gets the first of them only. The stem is the
//! variant's name in snake case.
//!
//! The work is done in three steps. [`describe`] puts a variant in normal
//! form, [`derive_names`] builds the names of its methods, and
//! [`synthesize`] makes the methods of all the variants and groups them in a
//! [`MethodBundle`]. A bundle holds structured descriptions, not source
//! text: reading a type's declaration and writing the methods out are left
//! to the caller. [`impl_variation`] is the entry point for a definition of
//! any kind.
//!
//! What a described method does when it is called is said in [`semantics`],
//! and [`laws`] proves what holds of the methods of every bundle. Every
//! function has a contract over the mathematical models of the data types,
//! and is verified against it.

pub mod definition;
pub mod describe;
pub mod error;
pub mod laws;
pub mod method;
pub mod names;
pub mod semantics;
pub mod synthesize;

pub use definition::{Definition, TaggedUnionDef, VariantDef};
pub use describe::{describe, VariantDescription};
pub use error::GenerationError;
pub use method::{
    Fallback, FieldPattern, MatchBody, MethodBundle, MethodDef, MethodKind, PayloadShape, Receiver,
    ReturnShape,
};
pub use names::{derive_names, is_identifier_stem, names_for_stem, MethodNames};
pub use semantics::{Outcome, UnionValue};
pub use synthesize::{
    as_accessor, as_mut_accessor, generate_ident_list_pattern, generate_ignore_pattern,
    has_name_collision, impl_variation, into_accessor, is_check, payload_shape, synthesize,
    synthesize_described,
};
