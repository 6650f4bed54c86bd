//! The method synthesizer: from the variants of a type to its methods.

use crate::definition::{Definition, DefinitionModel, TaggedUnionDef, UnionModel, VariantModel};
use crate::describe::{
    clone_types, describe, described, description_models, DescriptionModel, VariantDescription,
};
use crate::error::GenerationError;
use crate::method::{
    method_models, names_collide, BodyModel, BundleModel, Fallback, FieldPattern, MatchBody,
    MethodBundle, MethodDef, MethodKind, MethodModel, PayloadModel, PayloadShape, Receiver,
    ReturnModel, ReturnShape,
};
use crate::names::{is_identifier_stem, is_variant_name, names_for_stem, names_of_stem};
use vstd::prelude::*;

verus! {

/// A pattern that looks at none of `count` fields.
pub open spec fn ignore_pattern(count: nat) -> Seq<FieldPattern> {
    Seq::new(count, |i: int| FieldPattern::Ignore)
}

/// A pattern that binds each of `count` fields to the local of its own
/// number, all in the same way.
pub open spec fn ident_list_pattern(count: nat, refed: bool, mutable: bool) -> Seq<FieldPattern> {
    Seq::new(count, |i: int| FieldPattern::Bind { slot: i as usize, by_ref: refed, mutable })
}

/// The shape of a payload of these types: one type stands alone, any other
/// number of them makes a tuple.
pub open spec fn payload_of(types: Seq<Seq<char>>) -> PayloadModel {
    if types.len() == 1 {
        PayloadModel::Single(types[0])
    } else {
        PayloadModel::Tuple(types)
    }
}

/// The test for a variant: `true` when the receiver holds it, whatever its
/// payload, and `false` when not.
pub open spec fn is_method(d: DescriptionModel) -> MethodModel {
    MethodModel {
        name: names_of_stem(d.name_stem).is_name,
        kind: MethodKind::Is,
        receiver: Receiver::Shared,
        returns: ReturnModel::Bool,
        body: BodyModel {
            variant: d.name,
            pattern: ignore_pattern(d.arity),
            fallback: Fallback::False,
        },
    }
}

/// The shared view of a variant's payload, absent when the receiver holds
/// another variant.
pub open spec fn as_method(d: DescriptionModel) -> MethodModel {
    MethodModel {
        name: names_of_stem(d.name_stem).as_name,
        kind: MethodKind::As,
        receiver: Receiver::Shared,
        returns: ReturnModel::OptionalRef(payload_of(d.field_types)),
        body: BodyModel {
            variant: d.name,
            pattern: ident_list_pattern(d.arity, true, false),
            fallback: Fallback::Absent,
        },
    }
}

/// The exclusive view of a variant's payload, absent when the receiver
/// holds another variant.
pub open spec fn as_mut_method(d: DescriptionModel) -> MethodModel {
    MethodModel {
        name: names_of_stem(d.name_stem).as_mut_name,
        kind: MethodKind::AsMut,
        receiver: Receiver::Exclusive,
        returns: ReturnModel::OptionalMut(payload_of(d.field_types)),
        body: BodyModel {
            variant: d.name,
            pattern: ident_list_pattern(d.arity, true, true),
            fallback: Fallback::Absent,
        },
    }
}

/// The conversion into a variant's payload, which aborts when the receiver
/// holds another variant.
pub open spec fn into_method(d: DescriptionModel) -> MethodModel {
    MethodModel {
        name: names_of_stem(d.name_stem).into_name,
        kind: MethodKind::Into,
        receiver: Receiver::Owned,
        returns: ReturnModel::Owned(payload_of(d.field_types)),
        body: BodyModel {
            variant: d.name,
            pattern: ident_list_pattern(d.arity, false, false),
            fallback: Fallback::Abort,
        },
    }
}

/// The methods of one variant: the test alone where there is no payload,
/// else the test and the three accessors.
pub open spec fn methods_of(d: DescriptionModel) -> Seq<MethodModel> {
    if d.arity == 0 {
        seq![is_method(d)]
    } else {
        seq![is_method(d), as_method(d), as_mut_method(d), into_method(d)]
    }
}

/// The methods of the first `n` variants, variant after variant.
pub open spec fn methods_upto(descriptions: Seq<DescriptionModel>, n: int) -> Seq<MethodModel>
    decreases n,
{
    if n <= 0 {
        Seq::empty()
    } else {
        methods_upto(descriptions, n - 1) + methods_of(descriptions[n - 1])
    }
}

/// The methods of all the variants, in declaration order.
pub open spec fn all_methods(descriptions: Seq<DescriptionModel>) -> Seq<MethodModel> {
    methods_upto(descriptions, descriptions.len() as int)
}

/// One of the variants has the empty name.
pub open spec fn some_name_empty(descriptions: Seq<DescriptionModel>) -> bool {
    exists|i: int| 0 <= i < descriptions.len() && (#[trigger] descriptions[i]).name.len() == 0
}

/// What synthesis makes of a type's name and its variants' descriptions:
/// all the methods, or no bundle at all.
pub open spec fn synthesized_from(owner: Seq<char>, descriptions: Seq<DescriptionModel>) -> Result<
    BundleModel,
    GenerationError,
> {
    if some_name_empty(descriptions) {
        Err(GenerationError::InvalidVariantName)
    } else if names_collide(all_methods(descriptions)) {
        Err(GenerationError::NameCollision)
    } else {
        Ok(BundleModel { owner, methods: all_methods(descriptions) })
    }
}

/// The descriptions of a union's variants, one for one.
pub open spec fn descriptions_of(union: UnionModel) -> Seq<DescriptionModel> {
    union.variants.map_values(|v: VariantModel| described(v))
}

/// One of the union's variants has a name from which no method names can
/// be derived.
pub open spec fn some_name_invalid(union: UnionModel) -> bool {
    exists|i: int|
        0 <= i < union.variants.len() && !is_variant_name((#[trigger] union.variants[i]).name)
}

/// What synthesis makes of a tagged union: where every variant's name
/// gives method names, what it makes of the variants' descriptions.
pub open spec fn synthesized(union: UnionModel) -> Result<BundleModel, GenerationError> {
    if some_name_invalid(union) {
        Err(GenerationError::InvalidVariantName)
    } else {
        synthesized_from(union.name, descriptions_of(union))
    }
}

/// What generation makes of a definition: only a tagged union has methods.
pub open spec fn generated(definition: DefinitionModel) -> Result<BundleModel, GenerationError> {
    match definition {
        DefinitionModel::TaggedUnion(union) => synthesized(union),
        _ => Err(GenerationError::UnsupportedDefinitionKind),
    }
}

/// A result of synthesis is the one that the model gives.
pub open spec fn bundle_is(
    result: Result<MethodBundle, GenerationError>,
    model: Result<BundleModel, GenerationError>,
) -> bool {
    match result {
        Ok(bundle) => model == Ok::<BundleModel, GenerationError>(bundle@),
        Err(e) => model == Err::<BundleModel, GenerationError>(e),
    }
}

/// The pattern that binds `count` fields to the locals `0` to `count - 1`:
/// by value, by reference where `refed`, and by exclusive reference where
/// `mutable` too.
pub fn generate_ident_list_pattern(count: usize, refed: bool, mutable: bool) -> (pattern: Vec<
    FieldPattern,
>)
    ensures
        pattern@ == ident_list_pattern(count as nat, refed, mutable),
{
    let mut pattern: Vec<FieldPattern> = Vec::new();
    let mut i: usize = 0;
    while i < count
        invariant
            i <= count,
            pattern@ == ident_list_pattern(i as nat, refed, mutable),
        decreases count - i,
    {
        pattern.push(FieldPattern::Bind { slot: i, by_ref: refed, mutable });
        i += 1;
        assert(pattern@ =~= ident_list_pattern(i as nat, refed, mutable));
    }
    pattern
}

/// The pattern that looks at none of `count` fields.
pub fn generate_ignore_pattern(count: usize) -> (pattern: Vec<FieldPattern>)
    ensures
        pattern@ == ignore_pattern(count as nat),
{
    let mut pattern: Vec<FieldPattern> = Vec::new();
    let mut i: usize = 0;
    while i < count
        invariant
            i <= count,
            pattern@ == ignore_pattern(i as nat),
        decreases count - i,
    {
        pattern.push(FieldPattern::Ignore);
        i += 1;
        assert(pattern@ =~= ignore_pattern(i as nat));
    }
    pattern
}

/// The shape of a payload of these types.
pub fn payload_shape(types: &Vec<String>) -> (shape: PayloadShape)
    ensures
        shape@ == payload_of(types.deep_view()),
{
    if types.len() == 1 {
        PayloadShape::Single(types[0].clone())
    } else {
        PayloadShape::Tuple(clone_types(types))
    }
}

/// The test for the described variant.
pub fn is_check(description: &VariantDescription) -> (method: MethodDef)
    ensures
        method@ == is_method(description@),
{
    MethodDef {
        name: names_for_stem(description.name_stem.as_str()).is_name,
        kind: MethodKind::Is,
        receiver: Receiver::Shared,
        returns: ReturnShape::Bool,
        body: MatchBody {
            variant: description.name.clone(),
            pattern: generate_ignore_pattern(description.arity),
            fallback: Fallback::False,
        },
    }
}

/// The shared accessor of the described variant.
pub fn as_accessor(description: &VariantDescription) -> (method: MethodDef)
    ensures
        method@ == as_method(description@),
{
    MethodDef {
        name: names_for_stem(description.name_stem.as_str()).as_name,
        kind: MethodKind::As,
        receiver: Receiver::Shared,
        returns: ReturnShape::OptionalRef(payload_shape(&description.field_types)),
        body: MatchBody {
            variant: description.name.clone(),
            pattern: generate_ident_list_pattern(description.arity, true, false),
            fallback: Fallback::Absent,
        },
    }
}

/// The exclusive accessor of the described variant.
pub fn as_mut_accessor(description: &VariantDescription) -> (method: MethodDef)
    ensures
        method@ == as_mut_method(description@),
{
    MethodDef {
        name: names_for_stem(description.name_stem.as_str()).as_mut_name,
        kind: MethodKind::AsMut,
        receiver: Receiver::Exclusive,
        returns: ReturnShape::OptionalMut(payload_shape(&description.field_types)),
        body: MatchBody {
            variant: description.name.clone(),
            pattern: generate_ident_list_pattern(description.arity, true, true),
            fallback: Fallback::Absent,
        },
    }
}

/// The consuming accessor of the described variant.
pub fn into_accessor(description: &VariantDescription) -> (method: MethodDef)
    ensures
        method@ == into_method(description@),
{
    MethodDef {
        name: names_for_stem(description.name_stem.as_str()).into_name,
        kind: MethodKind::Into,
        receiver: Receiver::Owned,
        returns: ReturnShape::Owned(payload_shape(&description.field_types)),
        body: MatchBody {
            variant: description.name.clone(),
            pattern: generate_ident_list_pattern(description.arity, false, false),
            fallback: Fallback::Abort,
        },
    }
}

/// Whether two methods of the list bear the same name.
pub fn has_name_collision(methods: &Vec<MethodDef>) -> (collision: bool)
    ensures
        collision == names_collide(method_models(methods@)),
{
    let ghost models = method_models(methods@);
    let mut j: usize = 0;
    while j < methods.len()
        invariant
            j <= methods.len(),
            models == method_models(methods@),
            forall|a: int, b: int| 0 <= a < b < j ==> models[a].name != models[b].name,
        decreases methods.len() - j,
    {
        let mut i: usize = 0;
        while i < j
            invariant
                i <= j < methods.len(),
                models == method_models(methods@),
                forall|a: int, b: int| 0 <= a < b < j ==> models[a].name != models[b].name,
                forall|a: int| 0 <= a < i ==> models[a].name != models[j as int].name,
            decreases j - i,
        {
            if methods[i].name == methods[j].name {
                assert(models[i as int].name == models[j as int].name);
                return true;
            }
            i += 1;
        }
        j += 1;
    }
    false
}

/// Synthesizes the methods of the type `owner` from the descriptions of its
/// variants: for each variant in turn its test and, where it has a payload,
/// its three accessors. A variant with the empty name, or two methods that
/// would bear one name, leave the type without a bundle. The stems are
/// taken as they are given.
pub fn synthesize_described(owner: &str, descriptions: &Vec<VariantDescription>) -> (result: Result<
    MethodBundle,
    GenerationError,
>)
    ensures
        bundle_is(result, synthesized_from(owner@, description_models(descriptions@))),
{
    let ghost models = description_models(descriptions@);
    let mut methods: Vec<MethodDef> = Vec::new();
    let mut i: usize = 0;
    while i < descriptions.len()
        invariant
            i <= descriptions.len(),
            models == description_models(descriptions@),
            forall|k: int| 0 <= k < i ==> (#[trigger] models[k]).name.len() != 0,
            method_models(methods@) == methods_upto(models, i as int),
        decreases descriptions.len() - i,
    {
        let description = &descriptions[i];
        assert(description@ == models[i as int]);
        if description.name.as_str().is_empty() {
            return Err(GenerationError::InvalidVariantName);
        }
        let ghost before = method_models(methods@);
        methods.push(is_check(description));
        if description.arity > 0 {
            methods.push(as_accessor(description));
            methods.push(as_mut_accessor(description));
            methods.push(into_accessor(description));
        }
        i += 1;
        assert(method_models(methods@) =~= before + methods_of(description@));
    }
    if has_name_collision(&methods) {
        return Err(GenerationError::NameCollision);
    }
    Ok(MethodBundle { owner: owner.to_owned(), methods })
}

/// Synthesizes the methods of a tagged union: describes each variant,
/// refuses the union where a variant's name gives no method names, and
/// synthesizes from the descriptions.
pub fn synthesize(union_def: &TaggedUnionDef) -> (result: Result<MethodBundle, GenerationError>)
    ensures
        bundle_is(result, synthesized(union_def@)),
{
    let mut descriptions: Vec<VariantDescription> = Vec::new();
    let mut i: usize = 0;
    while i < union_def.variants.len()
        invariant
            i <= union_def.variants.len(),
            descriptions.len() == i,
            forall|k: int|
                0 <= k < i ==> (#[trigger] descriptions[k])@ == described(union_def.variants[k]@),
            forall|k: int| 0 <= k < i ==> is_variant_name((#[trigger] union_def@.variants[k]).name),
        decreases union_def.variants.len() - i,
    {
        let description = describe(&union_def.variants[i]);
        if description.name.as_str().is_empty() || !is_identifier_stem(
            description.name_stem.as_str(),
        ) {
            assert(!is_variant_name(union_def@.variants[i as int].name));
            return Err(GenerationError::InvalidVariantName);
        }
        descriptions.push(description);
        i += 1;
    }
    assert(description_models(descriptions@) =~= descriptions_of(union_def@));
    synthesize_described(union_def.name.as_str(), &descriptions)
}

/// Generates the methods of a definition. Only a tagged union has any: a
/// definition of another kind is refused.
pub fn impl_variation(definition: &Definition) -> (result: Result<MethodBundle, GenerationError>)
    ensures
        bundle_is(result, generated(definition@)),
{
    match definition {
        Definition::TaggedUnion(union_def) => synthesize(union_def),
        _ => Err(GenerationError::UnsupportedDefinitionKind),
    }
}

} // verus!
