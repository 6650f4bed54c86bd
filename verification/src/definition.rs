//! The input: the shape of a type, as plain data.
//!
//! A field's type is an opaque token. It is never inspected, only carried
//! into the signatures of the generated methods.

use vstd::prelude::*;

verus! {

/// One variant of a tagged union: its name and the types of its positional
/// payload fields, in declaration order.
#[derive(Debug, PartialEq, Eq)]
pub struct VariantDef {
    pub name: String,
    pub fields: Vec<String>,
}

/// The mathematical model of a [`VariantDef`].
pub struct VariantModel {
    pub name: Seq<char>,
    pub fields: Seq<Seq<char>>,
}

impl VariantModel {
    /// The number of payload fields.
    pub open spec fn arity(self) -> nat {
        self.fields.len()
    }
}

impl VariantDef {
    /// The number of payload fields.
    pub fn arity(&self) -> (arity: usize)
        ensures
            arity == self@.arity(),
    {
        self.fields.len()
    }
}

impl View for VariantDef {
    type V = VariantModel;

    open spec fn view(&self) -> VariantModel {
        VariantModel { name: self.name@, fields: self.fields.deep_view() }
    }
}

/// A tagged union: its name and its variants, in declaration order.
#[derive(Debug, PartialEq, Eq)]
pub struct TaggedUnionDef {
    pub name: String,
    pub variants: Vec<VariantDef>,
}

/// The mathematical model of a [`TaggedUnionDef`].
pub struct UnionModel {
    pub name: Seq<char>,
    pub variants: Seq<VariantModel>,
}

impl UnionModel {
    /// No two variants share a name.
    pub open spec fn well_formed(self) -> bool {
        forall|i: int, j: int|
            0 <= i < j < self.variants.len() ==> self.variants[i].name != self.variants[j].name
    }
}

impl View for TaggedUnionDef {
    type V = UnionModel;

    open spec fn view(&self) -> UnionModel {
        UnionModel {
            name: self.name@,
            variants: self.variants@.map_values(|v: VariantDef| v@),
        }
    }
}

/// A type definition as the definition source hands it over. Only a tagged
/// union can be given accessors.
#[derive(Debug, PartialEq, Eq)]
pub enum Definition {
    /// A tagged union.
    TaggedUnion(TaggedUnionDef),
    /// A plain record type, known by its name.
    Record(String),
    /// A union without a tag, known by its name.
    UntaggedUnion(String),
}

/// The mathematical model of a [`Definition`].
pub enum DefinitionModel {
    TaggedUnion(UnionModel),
    Record(Seq<char>),
    UntaggedUnion(Seq<char>),
}

impl View for Definition {
    type V = DefinitionModel;

    open spec fn view(&self) -> DefinitionModel {
        match self {
            Definition::TaggedUnion(u) => DefinitionModel::TaggedUnion(u@),
            Definition::Record(name) => DefinitionModel::Record(name@),
            Definition::UntaggedUnion(name) => DefinitionModel::UntaggedUnion(name@),
        }
    }
}

} // verus!
