//! Interface declarations for the template layer that drives the sentence
//! engine: references to the entities a template speaks about, the context
//! that resolves them, and the template itself.

use vstd::prelude::*;

use crate::Output;
use crate::named::NameRecord;

verus! {

/// A value that a template can refer to: an entity, a counted entity, a
/// number, or a piece of text.
pub enum ObjectRef<'a> {
    Object(&'a NameRecord),
    CountedObject(i64, &'a NameRecord),
    Int(i64),
    String(&'a str),
}

/// The objects referenced in a template.
pub trait Context {
    /// The subject.
    fn get_me(&self) -> ObjectRef<'_>;

    /// The object.
    fn get_obj(&self) -> ObjectRef<'_>;

    /// Another object.
    fn get_env(&self) -> ObjectRef<'_>;

    /// Any further reference, by name.
    fn get(&self, who: &str) -> ObjectRef<'_>;
}

/// A template renders a text about a context's objects to an output sink,
/// handing the sink back when it is done.
pub trait Template<C: Context, O: Output> {
    fn render(&self, ctx: &C, out: O) -> O;
}

} // verus!
