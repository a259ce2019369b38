use builder::generate::{generate, BuilderDesc};
use builder::types::{ty_is_option, FieldDesc, FieldsShape, Ty, TypeData, TypeDesc};

fn plain(head: &str) -> Ty {
    Ty { head: head.to_string(), args: Vec::new() }
}

fn wrapped(head: &str, inner: Ty) -> Ty {
    Ty { head: head.to_string(), args: vec![inner] }
}

fn field(name: &str, ty: Ty) -> FieldDesc {
    FieldDesc { name: name.to_string(), ty }
}

fn named_record(name: &str, fields: Vec<FieldDesc>) -> TypeDesc {
    TypeDesc { name: name.to_string(), data: TypeData::Struct(FieldsShape::Named(fields)) }
}

fn command_record() -> TypeDesc {
    named_record(
        "Command",
        vec![
            field("executable", plain("String")),
            field("args", wrapped("Option", wrapped("Vec", plain("String")))),
            field("current_dir", wrapped("Option", plain("String"))),
        ],
    )
}

fn command_builder_desc() -> BuilderDesc {
    generate(command_record()).ok().unwrap()
}

#[test]
fn generates_builder_description_for_command() {
    let d = command_builder_desc();
    assert_eq!(d.target_name, "Command");
    assert_eq!(d.builder_name, "CommandBuilder");
    assert_eq!(d.fields.len(), 3);

    assert_eq!(d.fields[0].name, "executable");
    assert!(d.fields[0].required);
    assert_eq!(d.fields[0].effective_ty.head, "String");
    assert_eq!(d.fields[0].effective_ty.args.len(), 0);

    assert_eq!(d.fields[1].name, "args");
    assert!(!d.fields[1].required);
    assert_eq!(d.fields[1].effective_ty.head, "Vec");
    assert_eq!(d.fields[1].effective_ty.args.len(), 1);
    assert_eq!(d.fields[1].effective_ty.args[0].head, "String");

    assert_eq!(d.fields[2].name, "current_dir");
    assert!(!d.fields[2].required);
    assert_eq!(d.fields[2].effective_ty.head, "String");
}

#[test]
fn builder_name_appends_suffix() {
    let d = generate(named_record("Foo", Vec::new())).ok().unwrap();
    assert_eq!(d.builder_name, "FooBuilder");
    assert_eq!(d.target_name, "Foo");
    assert_eq!(d.fields.len(), 0);
}

#[test]
fn rejects_tuple_record() {
    let td = TypeDesc {
        name: "Pair".to_string(),
        data: TypeData::Struct(FieldsShape::Unnamed(vec![plain("String"), plain("u64")])),
    };
    let e = generate(td).err().unwrap();
    assert_eq!(e.message(), "derivation only works for named-fields records");
}

#[test]
fn rejects_unit_record() {
    let td = TypeDesc { name: "Marker".to_string(), data: TypeData::Struct(FieldsShape::Unit) };
    assert!(generate(td).is_err());
}

#[test]
fn rejects_enum_and_union() {
    let td = TypeDesc { name: "Choice".to_string(), data: TypeData::Enum };
    assert!(generate(td).is_err());
    let td = TypeDesc { name: "Raw".to_string(), data: TypeData::Union };
    assert!(generate(td).is_err());
}

#[test]
fn optional_means_single_argument_wrapper() {
    assert!(ty_is_option(&wrapped("Option", plain("String"))));
    assert!(!ty_is_option(&plain("Option")));
    assert!(!ty_is_option(&plain("String")));
    assert!(!ty_is_option(&wrapped("Vec", plain("String"))));
    let two_args = Ty { head: "Option".to_string(), args: vec![plain("A"), plain("B")] };
    assert!(!ty_is_option(&two_args));
}

#[test]
fn nested_optional_unwraps_one_layer() {
    let td = named_record(
        "Outer",
        vec![field("level", wrapped("Option", wrapped("Option", plain("u64"))))],
    );
    let d = generate(td).ok().unwrap();
    assert!(!d.fields[0].required);
    assert_eq!(d.fields[0].effective_ty.head, "Option");
    assert_eq!(d.fields[0].effective_ty.args.len(), 1);
    assert_eq!(d.fields[0].effective_ty.args[0].head, "u64");
}
