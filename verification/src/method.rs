//! The output: method descriptions, grouped under the type that owns them.
//!
//! A description is structured data: a name, how the receiver is taken, the
//! shape of what is returned, and the one `match` that makes up the body.
//! No source text is put together here.

use vstd::prelude::*;

verus! {

/// Which of the four operations a method is.
#[derive(Debug, Clone, Copy, PartialEq, Eq, Structural)]
pub enum MethodKind {
    /// `is_<stem>`: tests for the variant.
    Is,
    /// `as_<stem>`: a shared view of the payload.
    As,
    /// `as_<stem>_mut`: an exclusive view of the payload.
    AsMut,
    /// `into_<stem>`: the owned payload.
    Into,
}

/// How a method takes the value it is called on. The receiver is its only
/// parameter.
#[derive(Debug, Clone, Copy, PartialEq, Eq, Structural)]
pub enum Receiver {
    /// By shared reference.
    Shared,
    /// By exclusive reference.
    Exclusive,
    /// By value: the call consumes the receiver.
    Owned,
}

/// What the body's pattern does with one payload field.
#[derive(Debug, Clone, Copy, PartialEq, Eq, Structural)]
pub enum FieldPattern {
    /// The field is matched and not looked at.
    Ignore,
    /// The field is bound to the local of number `slot`: by value, by
    /// reference (`by_ref`), or by exclusive reference (`by_ref` and
    /// `mutable`).
    Bind { slot: usize, by_ref: bool, mutable: bool },
}

/// What a body does when the receiver holds another variant.
#[derive(Debug, Clone, Copy, PartialEq, Eq, Structural)]
pub enum Fallback {
    /// It answers `false`.
    False,
    /// It answers that no payload is there.
    Absent,
    /// It aborts: a variant mismatch is the caller's error, and fatal.
    Abort,
}

/// The shape of a payload: the field's own type for a single field, a tuple
/// of the fields' types, in declaration order, for more.
#[derive(Debug, PartialEq, Eq)]
pub enum PayloadShape {
    Single(String),
    Tuple(Vec<String>),
}

/// The mathematical model of a [`PayloadShape`].
pub enum PayloadModel {
    Single(Seq<char>),
    Tuple(Seq<Seq<char>>),
}

impl PayloadModel {
    /// The types of the fields, in order.
    pub open spec fn types(self) -> Seq<Seq<char>> {
        match self {
            PayloadModel::Single(t) => seq![t],
            PayloadModel::Tuple(ts) => ts,
        }
    }
}

impl View for PayloadShape {
    type V = PayloadModel;

    open spec fn view(&self) -> PayloadModel {
        match self {
            PayloadShape::Single(t) => PayloadModel::Single(t@),
            PayloadShape::Tuple(ts) => PayloadModel::Tuple(ts.deep_view()),
        }
    }
}

/// What a method returns.
#[derive(Debug, PartialEq, Eq)]
pub enum ReturnShape {
    /// A boolean.
    Bool,
    /// Nothing, or the payload with each field behind a shared reference.
    OptionalRef(PayloadShape),
    /// Nothing, or the payload with each field behind an exclusive reference.
    OptionalMut(PayloadShape),
    /// The payload itself.
    Owned(PayloadShape),
}

/// The mathematical model of a [`ReturnShape`].
pub enum ReturnModel {
    Bool,
    OptionalRef(PayloadModel),
    OptionalMut(PayloadModel),
    Owned(PayloadModel),
}

impl View for ReturnShape {
    type V = ReturnModel;

    open spec fn view(&self) -> ReturnModel {
        match self {
            ReturnShape::Bool => ReturnModel::Bool,
            ReturnShape::OptionalRef(p) => ReturnModel::OptionalRef(p@),
            ReturnShape::OptionalMut(p) => ReturnModel::OptionalMut(p@),
            ReturnShape::Owned(p) => ReturnModel::Owned(p@),
        }
    }
}

/// A method's body: one `match` on the receiver with two arms. The first
/// arm is for `variant`, whose fields it meets with `pattern`, one entry for
/// each; what it yields follows from the method's [`ReturnShape`]. The
/// second arm is for every other variant, and does what `fallback` says.
#[derive(Debug, PartialEq, Eq)]
pub struct MatchBody {
    pub variant: String,
    pub pattern: Vec<FieldPattern>,
    pub fallback: Fallback,
}

/// The mathematical model of a [`MatchBody`].
pub struct BodyModel {
    pub variant: Seq<char>,
    pub pattern: Seq<FieldPattern>,
    pub fallback: Fallback,
}

impl View for MatchBody {
    type V = BodyModel;

    open spec fn view(&self) -> BodyModel {
        BodyModel { variant: self.variant@, pattern: self.pattern@, fallback: self.fallback }
    }
}

/// One generated method.
#[derive(Debug, PartialEq, Eq)]
pub struct MethodDef {
    pub name: String,
    pub kind: MethodKind,
    pub receiver: Receiver,
    pub returns: ReturnShape,
    pub body: MatchBody,
}

/// The mathematical model of a [`MethodDef`].
pub struct MethodModel {
    pub name: Seq<char>,
    pub kind: MethodKind,
    pub receiver: Receiver,
    pub returns: ReturnModel,
    pub body: BodyModel,
}

impl View for MethodDef {
    type V = MethodModel;

    open spec fn view(&self) -> MethodModel {
        MethodModel {
            name: self.name@,
            kind: self.kind,
            receiver: self.receiver,
            returns: self.returns@,
            body: self.body@,
        }
    }
}

/// The methods generated for one type, in the order of its variants.
#[derive(Debug, PartialEq, Eq)]
pub struct MethodBundle {
    pub owner: String,
    pub methods: Vec<MethodDef>,
}

/// The mathematical model of a [`MethodBundle`].
pub struct BundleModel {
    pub owner: Seq<char>,
    pub methods: Seq<MethodModel>,
}

/// The models of a list of methods, one for one.
pub open spec fn method_models(methods: Seq<MethodDef>) -> Seq<MethodModel> {
    methods.map_values(|m: MethodDef| m@)
}

impl View for MethodBundle {
    type V = BundleModel;

    open spec fn view(&self) -> BundleModel {
        BundleModel { owner: self.owner@, methods: method_models(self.methods@) }
    }
}

/// Two methods of the list bear the same name.
pub open spec fn names_collide(methods: Seq<MethodModel>) -> bool {
    exists|i: int, j: int|
        0 <= i < j < methods.len() && (#[trigger] methods[i]).name == (#[trigger] methods[j]).name
}

/// The first method of the list that bears `name` stands at `index`.
pub open spec fn first_named(methods: Seq<MethodModel>, name: Seq<char>, index: int) -> bool {
    &&& 0 <= index < methods.len()
    &&& methods[index].name == name
    &&& forall|k: int| 0 <= k < index ==> (#[trigger] methods[k]).name != name
}

impl BundleModel {
    /// No two methods bear the same name.
    pub open spec fn well_formed(self) -> bool {
        !names_collide(self.methods)
    }
}

impl MethodBundle {
    /// Looks a method up by its name: the first that bears it, or none
    /// where no method does.
    pub fn find(&self, name: &str) -> (found: Option<&MethodDef>)
        ensures
            match found {
                Some(method) => exists|i: int|
                    first_named(self@.methods, name@, i) && *method == #[trigger] self.methods[i],
                None => forall|i: int|
                    0 <= i < self@.methods.len() ==> (#[trigger] self@.methods[i]).name != name@,
            },
    {
        let wanted = name.to_owned();
        let mut i: usize = 0;
        while i < self.methods.len()
            invariant
                i <= self.methods.len(),
                wanted@ == name@,
                forall|k: int| 0 <= k < i ==> (#[trigger] self@.methods[k]).name != name@,
            decreases self.methods.len() - i,
        {
            if self.methods[i].name == wanted {
                assert(first_named(self@.methods, name@, i as int));
                return Some(&self.methods[i]);
            }
            i += 1;
        }
        None
    }
}

} // verus!
