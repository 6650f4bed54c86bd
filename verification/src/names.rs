//! The name deriver: from a variant's name to the names of its methods.

use crate::error::GenerationError;
use heck::SnakeCase;
use vstd::prelude::*;
use vstd::string::StringExecFns;

verus! {

/// The snake-case form of a name, as `heck` computes it: the words of the
/// name in lower case, joined by single underscores. A word ends at an
/// underscore or another separator and where an upper-case letter opens a
/// new word. The name stands for that computation, which is not written
/// out here.
pub uninterp spec fn snake_case(name: Seq<char>) -> Seq<char>;

/// Calls `heck::SnakeCase::to_snake_case` on `name`. The contract claims
/// only that the result is a function of the characters of `name`, the one
/// that [`snake_case`] names. Nothing is proved of it.
#[verifier::external_body]
pub(crate) fn to_snake_case(name: &str) -> (stem: String)
    ensures
        stem@ == snake_case(name@),
{
    name.to_snake_case()
}

/// Whether a character can stand inside an identifier: whether it is one of
/// those that Unicode lists as XID_Continue, as `unicode_ident` tabulates
/// them. The name stands for that table, which is not written out here.
pub uninterp spec fn xid_continue(c: char) -> bool;

/// Calls `unicode_ident::is_xid_continue` on `c`. The contract claims only
/// that the result is a function of the character, the one that
/// [`xid_continue`] names. Nothing is proved of it.
#[verifier::external_body]
pub(crate) fn is_xid_continue(c: char) -> (continues: bool)
    ensures
        continues == xid_continue(c),
{
    unicode_ident::is_xid_continue(c)
}

/// A stem on which method names can be built: each of its characters can
/// stand inside an identifier. The prefix of a method name opens the
/// identifier, so the empty stem is one too.
pub open spec fn is_stem(stem: Seq<char>) -> bool {
    forall|i: int| 0 <= i < stem.len() ==> xid_continue(#[trigger] stem[i])
}

/// The names of the four operations of one variant.
#[derive(Debug, PartialEq, Eq)]
pub struct MethodNames {
    pub is_name: String,
    pub as_name: String,
    pub as_mut_name: String,
    pub into_name: String,
}

/// The mathematical model of [`MethodNames`].
pub struct NamesModel {
    pub is_name: Seq<char>,
    pub as_name: Seq<char>,
    pub as_mut_name: Seq<char>,
    pub into_name: Seq<char>,
}

impl View for MethodNames {
    type V = NamesModel;

    open spec fn view(&self) -> NamesModel {
        NamesModel {
            is_name: self.is_name@,
            as_name: self.as_name@,
            as_mut_name: self.as_mut_name@,
            into_name: self.into_name@,
        }
    }
}

/// The four names built on a stem: `is_<stem>`, `as_<stem>`,
/// `as_<stem>_mut` and `into_<stem>`.
pub open spec fn names_of_stem(stem: Seq<char>) -> NamesModel {
    NamesModel {
        is_name: "is_"@ + stem,
        as_name: "as_"@ + stem,
        as_mut_name: "as_"@ + stem + "_mut"@,
        into_name: "into_"@ + stem,
    }
}

/// A variant's name from which method names can be derived: it is not
/// empty, and its snake-case form is a stem.
pub open spec fn is_variant_name(variant_name: Seq<char>) -> bool {
    variant_name.len() != 0 && is_stem(snake_case(variant_name))
}

/// What [`derive_names`] returns for a variant's name: the four names on
/// its snake-case stem, and no names where the name is empty or its stem
/// would not give identifiers.
pub open spec fn derived_names(variant_name: Seq<char>) -> Result<NamesModel, GenerationError> {
    if is_variant_name(variant_name) {
        Ok(names_of_stem(snake_case(variant_name)))
    } else {
        Err(GenerationError::InvalidVariantName)
    }
}

/// Whether method names can be built on a stem.
pub fn is_identifier_stem(stem: &str) -> (valid: bool)
    ensures
        valid == is_stem(stem@),
{
    for c in chars: stem.chars()
        invariant
            chars.seq() == stem@,
            forall|i: int| 0 <= i < chars.index() ==> xid_continue(#[trigger] stem@[i]),
    {
        if !is_xid_continue(c) {
            return false;
        }
    }
    true
}

/// Builds the four method names on a snake-case stem.
pub fn names_for_stem(stem: &str) -> (names: MethodNames)
    ensures
        names@ == names_of_stem(stem@),
{
    MethodNames {
        is_name: "is_".to_owned().concat(stem),
        as_name: "as_".to_owned().concat(stem),
        as_mut_name: "as_".to_owned().concat(stem).concat("_mut"),
        into_name: "into_".to_owned().concat(stem),
    }
}

/// Derives the four method names of a variant from its name. A name is
/// refused where it is empty, and where the names would not be identifiers.
pub fn derive_names(variant_name: &str) -> (names: Result<MethodNames, GenerationError>)
    ensures
        match names {
            Ok(n) => derived_names(variant_name@) == Ok::<NamesModel, GenerationError>(n@),
            Err(e) => derived_names(variant_name@) == Err::<NamesModel, GenerationError>(e),
        },
{
    if variant_name.is_empty() {
        return Err(GenerationError::InvalidVariantName);
    }
    let stem = to_snake_case(variant_name);
    if !is_identifier_stem(stem.as_str()) {
        return Err(GenerationError::InvalidVariantName);
    }
    Ok(names_for_stem(stem.as_str()))
}

/// Two sequences behind one prefix are equal only if they are equal
/// themselves.
proof fn lemma_prefix_cancels(prefix: Seq<char>, a: Seq<char>, b: Seq<char>)
    requires
        prefix + a == prefix + b,
    ensures
        a == b,
{
    assert(a =~= (prefix + a).subrange(prefix.len() as int, (prefix + a).len() as int));
    assert(b =~= (prefix + b).subrange(prefix.len() as int, (prefix + b).len() as int));
}

/// Two sequences before one suffix are equal only if they are equal
/// themselves.
proof fn lemma_suffix_cancels(a: Seq<char>, b: Seq<char>, suffix: Seq<char>)
    requires
        a + suffix == b + suffix,
    ensures
        a == b,
{
    assert((a + suffix).len() == (b + suffix).len());
    assert(a =~= (a + suffix).subrange(0, a.len() as int));
    assert(b =~= (b + suffix).subrange(0, b.len() as int));
}

/// The four names on one stem differ from each other: the methods of one
/// variant never collide.
pub proof fn law_names_on_one_stem_differ(stem: Seq<char>)
    ensures
        names_of_stem(stem).is_name != names_of_stem(stem).as_name,
        names_of_stem(stem).is_name != names_of_stem(stem).as_mut_name,
        names_of_stem(stem).is_name != names_of_stem(stem).into_name,
        names_of_stem(stem).as_name != names_of_stem(stem).as_mut_name,
        names_of_stem(stem).as_name != names_of_stem(stem).into_name,
        names_of_stem(stem).as_mut_name != names_of_stem(stem).into_name,
{
    law_names_on_two_stems(stem, stem);
    assert(stem.len() != (stem + "_mut"@).len()) by {
        reveal_strlit("_mut");
    }
}

/// When names on two stems are equal. Two names of one kind are equal only
/// on one stem. Of two names of different kinds only the shared accessor's
/// and the exclusive accessor's can be equal: where the stem of the first
/// is the stem of the second with `_mut` behind it.
pub proof fn law_names_on_two_stems(first: Seq<char>, second: Seq<char>)
    ensures
        names_of_stem(first).is_name == names_of_stem(second).is_name <==> first == second,
        names_of_stem(first).as_name == names_of_stem(second).as_name <==> first == second,
        names_of_stem(first).as_mut_name == names_of_stem(second).as_mut_name <==> first
            == second,
        names_of_stem(first).into_name == names_of_stem(second).into_name <==> first == second,
        names_of_stem(first).as_name == names_of_stem(second).as_mut_name <==> first == second
            + "_mut"@,
        names_of_stem(first).is_name != names_of_stem(second).as_name,
        names_of_stem(first).is_name != names_of_stem(second).as_mut_name,
        names_of_stem(first).is_name != names_of_stem(second).into_name,
        names_of_stem(first).into_name != names_of_stem(second).as_name,
        names_of_stem(first).into_name != names_of_stem(second).as_mut_name,
{
    reveal_strlit("is_");
    reveal_strlit("as_");
    reveal_strlit("into_");
    let a = names_of_stem(first);
    let b = names_of_stem(second);
    if a.is_name == b.is_name {
        lemma_prefix_cancels("is_"@, first, second);
    }
    if a.as_name == b.as_name {
        lemma_prefix_cancels("as_"@, first, second);
    }
    if a.into_name == b.into_name {
        lemma_prefix_cancels("into_"@, first, second);
    }
    if a.as_mut_name == b.as_mut_name {
        lemma_suffix_cancels("as_"@ + first, "as_"@ + second, "_mut"@);
        lemma_prefix_cancels("as_"@, first, second);
    }
    assert("as_"@ + second + "_mut"@ =~= "as_"@ + (second + "_mut"@));
    if a.as_name == b.as_mut_name {
        lemma_prefix_cancels("as_"@, first, second + "_mut"@);
    }
    assert(a.is_name[0] == 'i' && a.is_name[1] == 's');
    assert(a.into_name[0] == 'i' && a.into_name[1] == 'n');
    assert(b.as_name[0] == 'a');
    assert(b.as_mut_name[0] == 'a');
    assert(b.into_name[1] == 'n');
}

} // verus!
