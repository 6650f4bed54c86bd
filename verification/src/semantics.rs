//! What the generated methods do.
//!
//! A method description stands for code that runs on values of the type it
//! was made for. This module says what that code does: [`MethodModel::outcome`]
//! gives the meaning of a description on a receiver, and the three `call_*`
//! functions compute it, one for each way of holding the receiver. A payload
//! is handed out as a whole, its fields in declaration order.

use crate::method::{Fallback, MethodDef, MethodModel, Receiver, ReturnModel, ReturnShape};
use vstd::prelude::*;

verus! {

/// A value of a tagged union: the name of the variant it holds, and the
/// values of that variant's payload fields in declaration order.
#[derive(Debug, PartialEq, Eq)]
pub struct UnionValue<T> {
    pub variant: String,
    pub fields: Vec<T>,
}

/// The mathematical model of a [`UnionValue`].
pub struct ValueModel<T> {
    pub variant: Seq<char>,
    pub fields: Seq<T>,
}

impl<T> View for UnionValue<T> {
    type V = ValueModel<T>;

    open spec fn view(&self) -> ValueModel<T> {
        ValueModel { variant: self.variant@, fields: self.fields@ }
    }
}

/// How a call of a generated method ends. `P` is the form in which a
/// payload is handed out: a sequence in the model, a slice or a vector in a
/// run.
#[derive(Debug, PartialEq, Eq)]
pub enum Outcome<P> {
    /// The method returns this boolean.
    Flag(bool),
    /// The method returns that no payload is there.
    Absent,
    /// The method returns a view of the payload.
    Present(P),
    /// The method returns the payload itself.
    Payload(P),
    /// The method aborts: the receiver holds another variant than the one
    /// the method is for. Nothing is returned, and nothing can be recovered.
    VariantMismatch,
}

impl<P: View> View for Outcome<P> {
    type V = Outcome<P::V>;

    open spec fn view(&self) -> Outcome<P::V> {
        match self {
            Outcome::Flag(b) => Outcome::Flag(*b),
            Outcome::Absent => Outcome::Absent,
            Outcome::Present(p) => Outcome::Present(p@),
            Outcome::Payload(p) => Outcome::Payload(p@),
            Outcome::VariantMismatch => Outcome::VariantMismatch,
        }
    }
}

/// The model of an outcome that holds an exclusive view: the payload as it
/// is when the view is handed out.
pub open spec fn exclusive_view<T>(outcome: Outcome<&mut [T]>) -> Outcome<Seq<T>> {
    match outcome {
        Outcome::Flag(b) => Outcome::Flag(b),
        Outcome::Absent => Outcome::Absent,
        Outcome::Present(p) => Outcome::Present(p@),
        Outcome::Payload(p) => Outcome::Payload(p@),
        Outcome::VariantMismatch => Outcome::VariantMismatch,
    }
}

impl<T> ValueModel<T> {
    /// The value with its payload overwritten.
    pub open spec fn with_fields(self, fields: Seq<T>) -> ValueModel<T> {
        ValueModel { variant: self.variant, fields }
    }
}

impl MethodModel {
    /// The receiver holds the variant that the method's body matches.
    pub open spec fn selects<T>(self, receiver: ValueModel<T>) -> bool {
        receiver.variant == self.body.variant
    }

    /// How a call of the method on `receiver` ends. On the method's own
    /// variant the first arm of the body runs and yields what the return
    /// shape asks for: `true`, a view of the payload, or the payload. On any
    /// other variant the fallback runs.
    pub open spec fn outcome<T>(self, receiver: ValueModel<T>) -> Outcome<Seq<T>> {
        if self.selects(receiver) {
            match self.returns {
                ReturnModel::Bool => Outcome::Flag(true),
                ReturnModel::OptionalRef(_) => Outcome::Present(receiver.fields),
                ReturnModel::OptionalMut(_) => Outcome::Present(receiver.fields),
                ReturnModel::Owned(_) => Outcome::Payload(receiver.fields),
            }
        } else {
            match self.body.fallback {
                Fallback::False => Outcome::Flag(false),
                Fallback::Absent => Outcome::Absent,
                Fallback::Abort => Outcome::VariantMismatch,
            }
        }
    }
}

impl MethodDef {
    /// Whether the receiver holds the variant that the method is for.
    pub fn selects<T>(&self, receiver: &UnionValue<T>) -> (hit: bool)
        ensures
            hit == self@.selects(receiver@),
    {
        receiver.variant == self.body.variant
    }

    /// Calls a method that takes its receiver by shared reference. There is
    /// no call, and no outcome, for a method that takes it otherwise.
    pub fn call_shared<'a, T>(&self, receiver: &'a UnionValue<T>) -> (reply: Option<
        Outcome<&'a [T]>,
    >)
        ensures
            reply is Some <==> self.receiver == Receiver::Shared,
            reply matches Some(outcome) ==> outcome@ == self@.outcome(receiver@),
    {
        match self.receiver {
            Receiver::Shared => {},
            _ => {
                return None;
            },
        }
        if self.selects(receiver) {
            match self.returns {
                ReturnShape::Bool => Some(Outcome::Flag(true)),
                ReturnShape::Owned(_) => Some(Outcome::Payload(receiver.fields.as_slice())),
                _ => Some(Outcome::Present(receiver.fields.as_slice())),
            }
        } else {
            match self.body.fallback {
                Fallback::False => Some(Outcome::Flag(false)),
                Fallback::Absent => Some(Outcome::Absent),
                Fallback::Abort => Some(Outcome::VariantMismatch),
            }
        }
    }

    /// Calls a method that takes its receiver by exclusive reference. There
    /// is no call, and no outcome, for a method that takes it otherwise.
    ///
    /// A view that is handed out is a view into the receiver: when the
    /// caller is done with it, the receiver holds the same variant with
    /// what the caller wrote. With no view handed out the receiver is
    /// unchanged.
    pub fn call_exclusive<'a, T>(&self, receiver: &'a mut UnionValue<T>) -> (reply: Option<
        Outcome<&'a mut [T]>,
    >)
        ensures
            reply is Some <==> self.receiver == Receiver::Exclusive,
            reply matches Some(outcome) ==> exclusive_view(outcome) == self@.outcome(
                old(receiver)@,
            ),
            final(receiver)@ == old(receiver)@.with_fields(
                match reply {
                    Some(Outcome::Present(view)) => final(view)@,
                    Some(Outcome::Payload(view)) => final(view)@,
                    _ => old(receiver)@.fields,
                },
            ),
    {
        match self.receiver {
            Receiver::Exclusive => {},
            _ => {
                return None;
            },
        }
        if receiver.variant == self.body.variant {
            match self.returns {
                ReturnShape::Bool => Some(Outcome::Flag(true)),
                ReturnShape::Owned(_) => Some(Outcome::Payload(receiver.fields.as_mut_slice())),
                _ => Some(Outcome::Present(receiver.fields.as_mut_slice())),
            }
        } else {
            match self.body.fallback {
                Fallback::False => Some(Outcome::Flag(false)),
                Fallback::Absent => Some(Outcome::Absent),
                Fallback::Abort => Some(Outcome::VariantMismatch),
            }
        }
    }

    /// Calls a method that takes its receiver by value, and so consumes it.
    /// There is no call, and no outcome, for a method that takes it
    /// otherwise.
    pub fn call_owned<T>(&self, receiver: UnionValue<T>) -> (reply: Option<Outcome<Vec<T>>>)
        ensures
            reply is Some <==> self.receiver == Receiver::Owned,
            reply matches Some(outcome) ==> outcome@ == self@.outcome(receiver@),
    {
        match self.receiver {
            Receiver::Owned => {},
            _ => {
                return None;
            },
        }
        if self.selects(&receiver) {
            match self.returns {
                ReturnShape::Bool => Some(Outcome::Flag(true)),
                ReturnShape::Owned(_) => Some(Outcome::Payload(receiver.fields)),
                _ => Some(Outcome::Present(receiver.fields)),
            }
        } else {
            match self.body.fallback {
                Fallback::False => Some(Outcome::Flag(false)),
                Fallback::Absent => Some(Outcome::Absent),
                Fallback::Abort => Some(Outcome::VariantMismatch),
            }
        }
    }
}

} // verus!
