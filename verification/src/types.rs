//! The structural description of a source record type: its name, the shape
//! of its field list, and a symbolic form of each field's declared type.

use vstd::prelude::*;
use vstd::string::StringExecFns;

verus! {

/// A symbolic declared type: a head identifier together with its generic
/// type arguments, e.g. `String` (no arguments) or `Option<String>` (head
/// `Option`, one argument).
pub struct Ty {
    pub head: String,
    pub args: Vec<Ty>,
}

/// A field of the source record: an identifier and a declared type.
pub struct FieldDesc {
    pub name: String,
    pub ty: Ty,
}

/// The shape of a record's field list.
pub enum FieldsShape {
    /// Named fields, `{ a: T, b: U }`.
    Named(Vec<FieldDesc>),
    /// Tuple-like positional fields, `(T, U)`.
    Unnamed(Vec<Ty>),
    /// No field list at all.
    Unit,
}

/// What kind of data definition the description stands for.
pub enum TypeData {
    Struct(FieldsShape),
    Enum,
    Union,
}

/// The description of the annotated source type.
pub struct TypeDesc {
    pub name: String,
    pub data: TypeData,
}

/// A declared type is classified optional exactly when it is the
/// single-argument optional wrapper.
pub open spec fn is_option_ty(t: Ty) -> bool {
    t.head@ == "Option"@ && t.args@.len() == 1
}

/// The effective type of a field: the carried inner type if the declared
/// type is the optional wrapper, else the declared type itself.
pub open spec fn effective_ty(t: Ty) -> Ty {
    if is_option_ty(t) {
        t.args@[0]
    } else {
        t
    }
}

/// Decides the optional classification of a declared type.
pub fn ty_is_option(t: &Ty) -> (r: bool)
    ensures
        r == is_option_ty(*t),
{
    t.args.len() == 1 && t.head == String::from_str("Option")
}

} // verus!
