//! The variant describer: a variant in normal form.

use crate::definition::{VariantDef, VariantModel};
use crate::names::{snake_case, to_snake_case};
use vstd::prelude::*;

verus! {

/// A variant in normal form: its name, the snake-case stem of its methods'
/// names, the number of its payload fields and their types in declaration
/// order.
#[derive(Debug, PartialEq, Eq)]
pub struct VariantDescription {
    pub name: String,
    pub name_stem: String,
    pub arity: usize,
    pub field_types: Vec<String>,
}

/// The mathematical model of a [`VariantDescription`].
pub struct DescriptionModel {
    pub name: Seq<char>,
    pub name_stem: Seq<char>,
    pub arity: nat,
    pub field_types: Seq<Seq<char>>,
}

impl DescriptionModel {
    /// The arity is the number of field types.
    pub open spec fn well_formed(self) -> bool {
        self.arity == self.field_types.len()
    }
}

impl View for VariantDescription {
    type V = DescriptionModel;

    open spec fn view(&self) -> DescriptionModel {
        DescriptionModel {
            name: self.name@,
            name_stem: self.name_stem@,
            arity: self.arity as nat,
            field_types: self.field_types.deep_view(),
        }
    }
}

/// The models of a list of descriptions, one for one.
pub open spec fn description_models(descriptions: Seq<VariantDescription>) -> Seq<
    DescriptionModel,
> {
    descriptions.map_values(|d: VariantDescription| d@)
}

/// The description of a variant: the stem is the snake-case form of the
/// name, the fields are counted, and their types are kept as they are.
pub open spec fn described(variant: VariantModel) -> DescriptionModel {
    DescriptionModel {
        name: variant.name,
        name_stem: snake_case(variant.name),
        arity: variant.fields.len(),
        field_types: variant.fields,
    }
}

/// A copy of a list of type tokens.
pub(crate) fn clone_types(types: &Vec<String>) -> (copy: Vec<String>)
    ensures
        copy.deep_view() == types.deep_view(),
{
    let mut copy: Vec<String> = Vec::new();
    let mut i: usize = 0;
    while i < types.len()
        invariant
            i <= types.len(),
            copy.len() == i,
            forall|k: int| 0 <= k < i ==> copy[k]@ == types[k]@,
        decreases types.len() - i,
    {
        copy.push(types[i].clone());
        i += 1;
    }
    assert(copy.deep_view() =~= types.deep_view());
    copy
}

/// Describes a variant. Every variant has a description.
pub fn describe(variant: &VariantDef) -> (description: VariantDescription)
    ensures
        description@ == described(variant@),
        description@.well_formed(),
{
    VariantDescription {
        name: variant.name.clone(),
        name_stem: to_snake_case(variant.name.as_str()),
        arity: variant.arity(),
        field_types: clone_types(&variant.fields),
    }
}

} // verus!
