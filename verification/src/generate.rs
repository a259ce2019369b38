//! The generation pass: from a source type description to the description of
//! its companion builder type.
//!
//! Only a named-fields record is accepted; any other shape is a generation
//! failure with a fixed diagnostic. For a valid input the builder description
//! carries one field per source field, in declaration order, each with its
//! effective type (the optional wrapper unwrapped) and its required flag.

use vstd::prelude::*;
use vstd::string::StringExecFns;

use crate::types::{effective_ty, is_option_ty, ty_is_option, FieldDesc, FieldsShape, Ty, TypeData,
    TypeDesc};

verus! {

/// One field of the generated builder type: the source field's identifier,
/// whether the source field is required, and the effective type its slot
/// carries.
pub struct BuilderField {
    pub name: String,
    pub required: bool,
    pub effective_ty: Ty,
}

/// The generated builder type: its own name, the name of the record it
/// builds, and its fields in the source declaration order.
pub struct BuilderDesc {
    pub target_name: String,
    pub builder_name: String,
    pub fields: Vec<BuilderField>,
}

/// The one generation-time failure: the input is not a named-fields record.
pub struct ShapeError {}

impl ShapeError {
    /// The fixed diagnostic for a rejected input shape.
    pub fn message(&self) -> (r: String)
        ensures
            r@ == "derivation only works for named-fields records"@,
    {
        String::from_str("derivation only works for named-fields records")
    }
}

/// Whether the description is of a record with named fields, the only shape
/// the generation accepts.
pub open spec fn is_named_record(d: TypeDesc) -> bool {
    d.data matches TypeData::Struct(FieldsShape::Named(_))
}

/// The source fields of a named-fields record description.
pub open spec fn record_fields(d: TypeDesc) -> Seq<FieldDesc> {
    match d.data {
        TypeData::Struct(FieldsShape::Named(fields)) => fields@,
        _ => Seq::empty(),
    }
}

/// How one generated builder field relates to the source field it stands for.
pub open spec fn derived_from(b: BuilderField, f: FieldDesc) -> bool {
    &&& b.name == f.name
    &&& b.required == !is_option_ty(f.ty)
    &&& b.effective_ty == effective_ty(f.ty)
}

/// The generation pass itself. It succeeds exactly on named-fields records;
/// the builder description then holds the target's name, the builder's name
/// (the target's name with `Builder` appended), and one derived field per
/// source field, in declaration order.
pub fn generate(input: TypeDesc) -> (r: Result<BuilderDesc, ShapeError>)
    ensures
        r is Ok <==> is_named_record(input),
        r matches Ok(d) ==> {
            &&& d.target_name == input.name
            &&& d.builder_name@ == input.name@ + "Builder"@
            &&& d.fields@.len() == record_fields(input).len()
            &&& forall|i: int| 0 <= i < d.fields@.len()
                ==> derived_from(#[trigger] d.fields@[i], record_fields(input)[i])
        },
{
    let TypeDesc { name, data } = input;
    let mut fields: Vec<FieldDesc> = match data {
        TypeData::Struct(FieldsShape::Named(fields)) => fields,
        _ => {
            return Err(ShapeError {});
        },
    };
    let builder_name = name.clone().concat("Builder");
    let ghost source: Seq<FieldDesc> = fields@;
    let mut out: Vec<BuilderField> = Vec::new();
    while fields.len() > 0
        invariant
            out@.len() + fields@.len() == source.len(),
            fields@ == source.subrange(out@.len() as int, source.len() as int),
            forall|i: int| 0 <= i < out@.len()
                ==> derived_from(#[trigger] out@[i], source[i]),
        decreases fields@.len(),
    {
        let f = fields.remove(0);
        let FieldDesc { name: field_name, ty } = f;
        if ty_is_option(&ty) {
            let mut wrapper = ty;
            let inner = wrapper.args.remove(0);
            out.push(BuilderField { name: field_name, required: false, effective_ty: inner });
        } else {
            out.push(BuilderField { name: field_name, required: true, effective_ty: ty });
        }
    }
    Ok(BuilderDesc { target_name: name, builder_name, fields: out })
}

} // verus!
