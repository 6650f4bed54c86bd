//! What holds of every bundle that synthesis hands out.
//!
//! Each law is stated over the models: of a union, of the bundle made for
//! it, and of a receiver that holds one of the union's variants.

use crate::definition::UnionModel;
use crate::describe::DescriptionModel;
use crate::error::GenerationError;
use crate::method::{names_collide, BundleModel, MethodKind, MethodModel, Receiver};
use crate::names::{
    derived_names, is_variant_name, law_names_on_one_stem_differ, law_names_on_two_stems,
    NamesModel,
};
use crate::semantics::{Outcome, ValueModel};
use crate::synthesize::{
    all_methods, as_method, as_mut_method, descriptions_of, into_method, is_method, methods_of,
    methods_upto, some_name_invalid, synthesized,
};
use vstd::prelude::*;

verus! {

/// The method of a given kind for a described variant.
pub open spec fn method_of_kind(d: DescriptionModel, kind: MethodKind) -> MethodModel {
    match kind {
        MethodKind::Is => is_method(d),
        MethodKind::As => as_method(d),
        MethodKind::AsMut => as_mut_method(d),
        MethodKind::Into => into_method(d),
    }
}

/// The bundle is the one made for the union.
pub open spec fn is_bundle_of(bundle: BundleModel, union: UnionModel) -> bool {
    synthesized(union) == Ok::<BundleModel, GenerationError>(bundle)
}

/// The methods of the first `a` variants open the list of the methods of
/// the first `b`.
proof fn lemma_upto_prefix(descriptions: Seq<DescriptionModel>, a: int, b: int)
    requires
        0 <= a <= b,
    ensures
        methods_upto(descriptions, a).len() <= methods_upto(descriptions, b).len(),
        forall|i: int|
            0 <= i < methods_upto(descriptions, a).len() ==> methods_upto(descriptions, b)[i]
                == methods_upto(descriptions, a)[i],
    decreases b - a,
{
    if a < b {
        lemma_upto_prefix(descriptions, a, b - 1);
    }
}

/// Where the methods of variant `k` stand in the list: behind those of the
/// variants before it, and before those of the variants after it.
proof fn lemma_method_at(descriptions: Seq<DescriptionModel>, k: int, j: int)
    requires
        0 <= k < descriptions.len(),
        0 <= j < methods_of(descriptions[k]).len(),
    ensures
        methods_upto(descriptions, k).len() + j < all_methods(descriptions).len(),
        all_methods(descriptions)[methods_upto(descriptions, k).len() + j] == methods_of(
            descriptions[k],
        )[j],
        methods_upto(descriptions, k + 1).len() == methods_upto(descriptions, k).len()
            + methods_of(descriptions[k]).len(),
{
    lemma_upto_prefix(descriptions, k + 1, descriptions.len() as int);
}

/// Every method of the list is the method of its kind for one of the
/// variants, and only a variant with a payload has more than its test. The
/// method stands among those of its variant, behind the methods of the
/// variants before.
proof fn lemma_method_form(descriptions: Seq<DescriptionModel>, n: int, m: int) -> (k: int)
    requires
        0 <= n <= descriptions.len(),
        0 <= m < methods_upto(descriptions, n).len(),
    ensures
        0 <= k < n,
        methods_upto(descriptions, n)[m] == method_of_kind(
            descriptions[k],
            methods_upto(descriptions, n)[m].kind,
        ),
        methods_upto(descriptions, n)[m].kind != MethodKind::Is ==> descriptions[k].arity > 0,
        0 <= m - methods_upto(descriptions, k).len() < methods_of(descriptions[k]).len(),
        methods_upto(descriptions, n)[m] == methods_of(descriptions[k])[m - methods_upto(
            descriptions,
            k,
        ).len()],
    decreases n,
{
    if m < methods_upto(descriptions, n - 1).len() {
        lemma_method_form(descriptions, n - 1, m)
    } else {
        n - 1
    }
}

/// A union for which a bundle is made has no two variants of one name.
pub proof fn law_variant_names_differ(union: UnionModel, bundle: BundleModel)
    requires
        is_bundle_of(bundle, union),
    ensures
        union.well_formed(),
{
    let descriptions = descriptions_of(union);
    assert forall|a: int, b: int| 0 <= a < b < union.variants.len() implies union.variants[a].name
        != union.variants[b].name by {
        if union.variants[a].name == union.variants[b].name {
            lemma_method_at(descriptions, a, 0);
            lemma_method_at(descriptions, b, 0);
            lemma_upto_prefix(descriptions, a + 1, b);
            let i = methods_upto(descriptions, a).len() as int;
            let j = methods_upto(descriptions, b).len() as int;
            assert(all_methods(descriptions)[i].name == all_methods(descriptions)[j].name);
            assert(names_collide(all_methods(descriptions)));
        }
    }
}

/// The method is the one of this kind for the variant of this name.
pub open spec fn is_for(method: MethodModel, kind: MethodKind, variant: Seq<char>) -> bool {
    method.kind == kind && method.body.variant == variant
}

/// The bundle's method of number `m` is a test, and it holds of the
/// receiver.
pub open spec fn test_holds_at<T>(bundle: BundleModel, receiver: ValueModel<T>, m: int) -> bool {
    &&& 0 <= m < bundle.methods.len()
    &&& bundle.methods[m].kind == MethodKind::Is
    &&& bundle.methods[m].outcome(receiver) == Outcome::<Seq<T>>::Flag(true)
}

/// Every method of a bundle is the method of its kind for one of the
/// union's variants, and a method of another kind than the test is there
/// only for a variant with a payload.
pub proof fn law_every_method_has_its_variant(union: UnionModel, bundle: BundleModel, m: int) -> (k:
    int)
    requires
        is_bundle_of(bundle, union),
        0 <= m < bundle.methods.len(),
    ensures
        0 <= k < union.variants.len(),
        bundle.methods[m] == method_of_kind(descriptions_of(union)[k], bundle.methods[m].kind),
        bundle.methods[m].body.variant == union.variants[k].name,
        bundle.methods[m].kind != MethodKind::Is ==> union.variants[k].arity() > 0,
{
    let descriptions = descriptions_of(union);
    lemma_method_form(descriptions, descriptions.len() as int, m)
}

/// A bundle holds the test for each variant of the union, and the three
/// accessors for each variant with a payload.
pub proof fn law_every_variant_has_its_methods(
    union: UnionModel,
    bundle: BundleModel,
    v: int,
    kind: MethodKind,
) -> (m: int)
    requires
        is_bundle_of(bundle, union),
        0 <= v < union.variants.len(),
        kind == MethodKind::Is || union.variants[v].arity() >= 1,
    ensures
        0 <= m < bundle.methods.len(),
        bundle.methods[m] == method_of_kind(descriptions_of(union)[v], kind),
        is_for(bundle.methods[m], kind, union.variants[v].name),
{
    let descriptions = descriptions_of(union);
    let j: int = match kind {
        MethodKind::Is => 0,
        MethodKind::As => 1,
        MethodKind::AsMut => 2,
        MethodKind::Into => 3,
    };
    lemma_method_at(descriptions, v, j);
    methods_upto(descriptions, v).len() + j
}

/// Of the tests generated for a union, exactly one holds of a receiver
/// that holds one of the union's variants, and every other one answers
/// `false`.
pub proof fn law_exactly_one_test_holds<T>(
    union: UnionModel,
    bundle: BundleModel,
    v: int,
    receiver: ValueModel<T>,
)
    requires
        is_bundle_of(bundle, union),
        0 <= v < union.variants.len(),
        receiver.variant == union.variants[v].name,
    ensures
        exists|m: int| test_holds_at(bundle, receiver, m),
        forall|m: int, n: int|
            test_holds_at(bundle, receiver, m) && test_holds_at(bundle, receiver, n) ==> m == n,
        forall|m: int|
            0 <= m < bundle.methods.len() && (#[trigger] bundle.methods[m]).kind == MethodKind::Is
                && !test_holds_at(bundle, receiver, m) ==> bundle.methods[m].outcome(receiver)
                == Outcome::<Seq<T>>::Flag(false),
{
    let own = law_every_variant_has_its_methods(union, bundle, v, MethodKind::Is);
    assert(test_holds_at(bundle, receiver, own));
    assert forall|m: int, n: int|
        test_holds_at(bundle, receiver, m) && test_holds_at(bundle, receiver, n) implies m
        == n by {
        let k = law_every_method_has_its_variant(union, bundle, m);
        let l = law_every_method_has_its_variant(union, bundle, n);
        assert(union.variants[k].name == union.variants[l].name);
        assert(bundle.methods[m].name == bundle.methods[n].name);
        if m < n {
            assert(names_collide(bundle.methods));
        }
        if n < m {
            assert(names_collide(bundle.methods));
        }
    }
    assert forall|m: int|
        0 <= m < bundle.methods.len() && (#[trigger] bundle.methods[m]).kind == MethodKind::Is
            && !test_holds_at(bundle, receiver, m) implies bundle.methods[m].outcome(receiver)
        == Outcome::<Seq<T>>::Flag(false) by {
        law_every_method_has_its_variant(union, bundle, m);
    }
}

/// A variant without a payload has its test and nothing else: no method
/// of another kind is generated for it.
pub proof fn law_no_accessor_without_payload(union: UnionModel, bundle: BundleModel, v: int)
    requires
        is_bundle_of(bundle, union),
        0 <= v < union.variants.len(),
        union.variants[v].arity() == 0,
    ensures
        forall|m: int|
            0 <= m < bundle.methods.len() && (#[trigger] bundle.methods[m]).body.variant
                == union.variants[v].name ==> bundle.methods[m].kind == MethodKind::Is,
{
    law_variant_names_differ(union, bundle);
    assert forall|m: int|
        0 <= m < bundle.methods.len() && (#[trigger] bundle.methods[m]).body.variant
            == union.variants[v].name implies bundle.methods[m].kind == MethodKind::Is by {
        let k = law_every_method_has_its_variant(union, bundle, m);
        assert(k == v);
    }
}

/// A variant with a payload has its shared accessor, and on a receiver
/// that holds the variant the accessor presents the payload: the fields'
/// values as they are, in declaration order.
pub proof fn law_as_presents_the_payload<T>(
    union: UnionModel,
    bundle: BundleModel,
    v: int,
    receiver: ValueModel<T>,
)
    requires
        is_bundle_of(bundle, union),
        0 <= v < union.variants.len(),
        union.variants[v].arity() >= 1,
        receiver.variant == union.variants[v].name,
    ensures
        exists|m: int|
            0 <= m < bundle.methods.len() && is_for(
                #[trigger] bundle.methods[m],
                MethodKind::As,
                union.variants[v].name,
            ),
        forall|m: int|
            0 <= m < bundle.methods.len() && is_for(
                #[trigger] bundle.methods[m],
                MethodKind::As,
                union.variants[v].name,
            ) ==> bundle.methods[m].outcome(receiver) == Outcome::Present(receiver.fields),
{
    law_every_variant_has_its_methods(union, bundle, v, MethodKind::As);
    assert forall|m: int|
        0 <= m < bundle.methods.len() && is_for(
            #[trigger] bundle.methods[m],
            MethodKind::As,
            union.variants[v].name,
        ) implies bundle.methods[m].outcome(receiver) == Outcome::Present(receiver.fields) by {
        law_every_method_has_its_variant(union, bundle, m);
    }
}

/// On a receiver that holds another variant, the shared and the exclusive
/// accessor of a variant both answer that no payload is there.
pub proof fn law_accessors_absent_on_other_variants<T>(
    union: UnionModel,
    bundle: BundleModel,
    v: int,
    receiver: ValueModel<T>,
)
    requires
        is_bundle_of(bundle, union),
        0 <= v < union.variants.len(),
        receiver.variant != union.variants[v].name,
    ensures
        forall|m: int|
            0 <= m < bundle.methods.len() && (is_for(
                #[trigger] bundle.methods[m],
                MethodKind::As,
                union.variants[v].name,
            ) || is_for(bundle.methods[m], MethodKind::AsMut, union.variants[v].name))
                ==> bundle.methods[m].outcome(receiver) == Outcome::<Seq<T>>::Absent,
{
    assert forall|m: int|
        0 <= m < bundle.methods.len() && (is_for(
            #[trigger] bundle.methods[m],
            MethodKind::As,
            union.variants[v].name,
        ) || is_for(bundle.methods[m], MethodKind::AsMut, union.variants[v].name))
        implies bundle.methods[m].outcome(receiver) == Outcome::<Seq<T>>::Absent by {
        law_every_method_has_its_variant(union, bundle, m);
    }
}

/// What is written through the exclusive view is read back through the
/// shared one. On a receiver that holds the variant, the exclusive accessor
/// hands out a view of the payload; once `written` stands there, the
/// receiver is `receiver.with_fields(written)`, and on it the shared
/// accessor presents `written`.
pub proof fn law_write_is_read_back<T>(
    union: UnionModel,
    bundle: BundleModel,
    v: int,
    receiver: ValueModel<T>,
    written: Seq<T>,
)
    requires
        is_bundle_of(bundle, union),
        0 <= v < union.variants.len(),
        union.variants[v].arity() >= 1,
        receiver.variant == union.variants[v].name,
    ensures
        exists|m: int|
            0 <= m < bundle.methods.len() && is_for(
                #[trigger] bundle.methods[m],
                MethodKind::AsMut,
                union.variants[v].name,
            ),
        forall|m: int|
            0 <= m < bundle.methods.len() && is_for(
                #[trigger] bundle.methods[m],
                MethodKind::AsMut,
                union.variants[v].name,
            ) ==> bundle.methods[m].receiver == Receiver::Exclusive
                && bundle.methods[m].outcome(receiver) == Outcome::Present(receiver.fields),
        forall|m: int|
            0 <= m < bundle.methods.len() && is_for(
                #[trigger] bundle.methods[m],
                MethodKind::As,
                union.variants[v].name,
            ) ==> bundle.methods[m].outcome(receiver.with_fields(written)) == Outcome::Present(
                written,
            ),
{
    law_every_variant_has_its_methods(union, bundle, v, MethodKind::AsMut);
    assert forall|m: int|
        0 <= m < bundle.methods.len() && is_for(
            #[trigger] bundle.methods[m],
            MethodKind::AsMut,
            union.variants[v].name,
        ) implies bundle.methods[m].receiver == Receiver::Exclusive
        && bundle.methods[m].outcome(receiver) == Outcome::Present(receiver.fields) by {
        law_every_method_has_its_variant(union, bundle, m);
    }
    law_as_presents_the_payload(union, bundle, v, receiver.with_fields(written));
}

/// A variant with a payload has its consuming accessor. It takes the
/// receiver by value, and on a receiver that holds the variant it yields
/// the payload itself: the fields' values as they are, in declaration
/// order.
pub proof fn law_into_yields_the_payload<T>(
    union: UnionModel,
    bundle: BundleModel,
    v: int,
    receiver: ValueModel<T>,
)
    requires
        is_bundle_of(bundle, union),
        0 <= v < union.variants.len(),
        union.variants[v].arity() >= 1,
        receiver.variant == union.variants[v].name,
    ensures
        exists|m: int|
            0 <= m < bundle.methods.len() && is_for(
                #[trigger] bundle.methods[m],
                MethodKind::Into,
                union.variants[v].name,
            ),
        forall|m: int|
            0 <= m < bundle.methods.len() && is_for(
                #[trigger] bundle.methods[m],
                MethodKind::Into,
                union.variants[v].name,
            ) ==> bundle.methods[m].receiver == Receiver::Owned && bundle.methods[m].outcome(
                receiver,
            ) == Outcome::Payload(receiver.fields),
{
    law_every_variant_has_its_methods(union, bundle, v, MethodKind::Into);
    assert forall|m: int|
        0 <= m < bundle.methods.len() && is_for(
            #[trigger] bundle.methods[m],
            MethodKind::Into,
            union.variants[v].name,
        ) implies bundle.methods[m].receiver == Receiver::Owned && bundle.methods[m].outcome(
            receiver,
        ) == Outcome::Payload(receiver.fields) by {
        law_every_method_has_its_variant(union, bundle, m);
    }
}

/// On a receiver that holds another variant, the consuming accessor of a
/// variant aborts: the call ends in a variant mismatch and yields no value.
pub proof fn law_into_aborts_on_other_variants<T>(
    union: UnionModel,
    bundle: BundleModel,
    v: int,
    receiver: ValueModel<T>,
)
    requires
        is_bundle_of(bundle, union),
        0 <= v < union.variants.len(),
        receiver.variant != union.variants[v].name,
    ensures
        forall|m: int|
            0 <= m < bundle.methods.len() && is_for(
                #[trigger] bundle.methods[m],
                MethodKind::Into,
                union.variants[v].name,
            ) ==> bundle.methods[m].outcome(receiver) == Outcome::<Seq<T>>::VariantMismatch,
{
    assert forall|m: int|
        0 <= m < bundle.methods.len() && is_for(
            #[trigger] bundle.methods[m],
            MethodKind::Into,
            union.variants[v].name,
        ) implies bundle.methods[m].outcome(receiver) == Outcome::<Seq<T>>::VariantMismatch by {
        law_every_method_has_its_variant(union, bundle, m);
    }
}

/// The stems of two variants clash: they are one stem, or both variants
/// have a payload and the first stem is the second with `_mut` behind it,
/// so that the shared accessor of the first and the exclusive accessor of
/// the second bear one name.
pub open spec fn stems_clash(first: DescriptionModel, second: DescriptionModel) -> bool {
    ||| first.name_stem == second.name_stem
    ||| first.arity > 0 && second.arity > 0 && first.name_stem == second.name_stem + "_mut"@
}

/// The stems of two of the variants clash.
pub open spec fn some_stems_clash(descriptions: Seq<DescriptionModel>) -> bool {
    exists|a: int, b: int|
        0 <= a < descriptions.len() && 0 <= b < descriptions.len() && a != b && stems_clash(
            #[trigger] descriptions[a],
            #[trigger] descriptions[b],
        )
}

/// Two methods at different places of a list with one name make a
/// collision.
proof fn lemma_two_of_one_name(methods: Seq<MethodModel>, i: int, j: int)
    requires
        0 <= i < methods.len(),
        0 <= j < methods.len(),
        i != j,
        methods[i].name == methods[j].name,
    ensures
        names_collide(methods),
{
    if i < j {
        assert(methods[i].name == methods[j].name);
    } else {
        assert(methods[j].name == methods[i].name);
    }
}

/// The methods of two different variants stand at different places.
proof fn lemma_places_differ(descriptions: Seq<DescriptionModel>, a: int, b: int, i: int, j: int)
    requires
        0 <= a < descriptions.len(),
        0 <= b < descriptions.len(),
        a != b,
        0 <= i < methods_of(descriptions[a]).len(),
        0 <= j < methods_of(descriptions[b]).len(),
    ensures
        methods_upto(descriptions, a).len() + i != methods_upto(descriptions, b).len() + j,
{
    lemma_method_at(descriptions, a, i);
    lemma_method_at(descriptions, b, j);
    if a < b {
        lemma_upto_prefix(descriptions, a + 1, b);
    } else {
        lemma_upto_prefix(descriptions, b + 1, a);
    }
}

/// Exactly when two methods would bear one name: when the stems of two of
/// the variants clash. Nothing else makes a collision.
pub proof fn law_collisions_come_from_stems(descriptions: Seq<DescriptionModel>)
    ensures
        names_collide(all_methods(descriptions)) <==> some_stems_clash(descriptions),
{
    let all = all_methods(descriptions);
    if some_stems_clash(descriptions) {
        let (a, b) = choose|a: int, b: int|
            0 <= a < descriptions.len() && 0 <= b < descriptions.len() && a != b && stems_clash(
                #[trigger] descriptions[a],
                #[trigger] descriptions[b],
            );
        if descriptions[a].name_stem == descriptions[b].name_stem {
            lemma_method_at(descriptions, a, 0);
            lemma_method_at(descriptions, b, 0);
            lemma_places_differ(descriptions, a, b, 0, 0);
            lemma_two_of_one_name(
                all,
                methods_upto(descriptions, a).len() as int,
                methods_upto(descriptions, b).len() as int,
            );
        } else {
            law_names_on_two_stems(descriptions[a].name_stem, descriptions[b].name_stem);
            lemma_method_at(descriptions, a, 1);
            lemma_method_at(descriptions, b, 2);
            lemma_places_differ(descriptions, a, b, 1, 2);
            lemma_two_of_one_name(
                all,
                methods_upto(descriptions, a).len() as int + 1,
                methods_upto(descriptions, b).len() as int + 2,
            );
        }
    }
    if names_collide(all) {
        let (i, j) = choose|i: int, j: int|
            0 <= i < j < all.len() && (#[trigger] all[i]).name == (#[trigger] all[j]).name;
        let a = lemma_method_form(descriptions, descriptions.len() as int, i);
        let b = lemma_method_form(descriptions, descriptions.len() as int, j);
        law_names_on_two_stems(descriptions[a].name_stem, descriptions[b].name_stem);
        law_names_on_two_stems(descriptions[b].name_stem, descriptions[a].name_stem);
        if a == b {
            law_names_on_one_stem_differ(descriptions[a].name_stem);
            assert(all[i].kind == all[j].kind);
            assert(false);
        }
        assert(stems_clash(descriptions[a], descriptions[b]) || stems_clash(
            descriptions[b],
            descriptions[a],
        ));
    }
}

/// A union is refused for a collision exactly when every variant's name
/// gives method names and the stems of two of the variants clash. So two
/// variants whose names have one snake-case form are never given methods.
pub proof fn law_collision_is_refused(union: UnionModel)
    ensures
        synthesized(union) == Err::<BundleModel, GenerationError>(GenerationError::NameCollision)
            <==> !some_name_invalid(union) && some_stems_clash(descriptions_of(union)),
{
    law_collisions_come_from_stems(descriptions_of(union));
    if !some_name_invalid(union) {
        assert forall|i: int| 0 <= i < descriptions_of(union).len() implies (
        #[trigger] descriptions_of(union)[i]).name.len() != 0 by {
            assert(is_variant_name(union.variants[i].name));
        }
    }
}

/// The name among four that a method of this kind bears.
pub open spec fn name_of_kind(names: NamesModel, kind: MethodKind) -> Seq<char> {
    match kind {
        MethodKind::Is => names.is_name,
        MethodKind::As => names.as_name,
        MethodKind::AsMut => names.as_mut_name,
        MethodKind::Into => names.into_name,
    }
}

/// A bundle is grouped under the union's name, and no two of its methods
/// bear one name.
pub proof fn law_bundle_is_well_formed(union: UnionModel, bundle: BundleModel)
    requires
        is_bundle_of(bundle, union),
    ensures
        bundle.owner == union.name,
        bundle.well_formed(),
{
}

/// Every method of a bundle bears a derived name: of the four names
/// derived from the name of the variant that its body matches, the one of
/// its kind.
pub proof fn law_methods_bear_derived_names(union: UnionModel, bundle: BundleModel, m: int)
    requires
        is_bundle_of(bundle, union),
        0 <= m < bundle.methods.len(),
    ensures
        derived_names(bundle.methods[m].body.variant) is Ok,
        bundle.methods[m].name == name_of_kind(
            derived_names(bundle.methods[m].body.variant)->Ok_0,
            bundle.methods[m].kind,
        ),
{
    let k = law_every_method_has_its_variant(union, bundle, m);
    assert(is_variant_name(union.variants[k].name));
}

} // verus!
