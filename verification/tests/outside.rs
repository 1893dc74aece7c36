use uniffi_bindgen::interface::ffi::FfiType as Outside;
use uniffi_bindgen::interface::{AsType, ComponentInterface, Type};
use uniffi_dart::ffi::{foreign_future_ffi_result_struct, FfiType};
use uniffi_dart::ir::{InterfaceType, Primitive};

const UDL: &str = r#"
namespace sample {};

dictionary Point { i32 x; };
enum Color { "Red", "Green" };
interface Megaphone {};
[Custom] typedef i64 Handle;
[Custom] typedef string Url;
[Custom] typedef sequence<i32> Numbers;

callback interface Parser {
    string parse(i32 x);
};

callback interface Returns {
    u8 r0();
    i8 r1();
    u16 r2();
    i16 r3();
    u32 r4();
    i32 r5();
    u64 r6();
    i64 r7();
    f32 r8();
    f64 r9();
    boolean r10();
    string r11();
    bytes r12();
    timestamp r13();
    duration r14();
    Megaphone r15();
    Point r16();
    Color r17();
    Handle r18();
    Url r19();
    Numbers r20();
    i32? r21();
    Point? r22();
    sequence<u8> r23();
    sequence<Megaphone> r24();
    record<string, i64> r25();
    record<string, Handle> r26();
    sequence<Point?> r27();
    void r28();
};
"#;

fn kind(t: &FfiType) -> String {
    match t {
        FfiType::UInt8 => "UInt8".to_string(),
        FfiType::Int8 => "Int8".to_string(),
        FfiType::UInt16 => "UInt16".to_string(),
        FfiType::Int16 => "Int16".to_string(),
        FfiType::UInt32 => "UInt32".to_string(),
        FfiType::Int32 => "Int32".to_string(),
        FfiType::UInt64 => "UInt64".to_string(),
        FfiType::Int64 => "Int64".to_string(),
        FfiType::Float32 => "Float32".to_string(),
        FfiType::Float64 => "Float64".to_string(),
        FfiType::RustArcPtr(name) => format!("RustArcPtr({name})"),
        FfiType::RustBuffer => "RustBuffer".to_string(),
        FfiType::Struct(name) => format!("Struct({name})"),
        FfiType::RustCallStatus => "RustCallStatus".to_string(),
    }
}

fn outside_kind(t: &Outside) -> String {
    match t {
        Outside::UInt8 => "UInt8".to_string(),
        Outside::Int8 => "Int8".to_string(),
        Outside::UInt16 => "UInt16".to_string(),
        Outside::Int16 => "Int16".to_string(),
        Outside::UInt32 => "UInt32".to_string(),
        Outside::Int32 => "Int32".to_string(),
        Outside::UInt64 => "UInt64".to_string(),
        Outside::Int64 => "Int64".to_string(),
        Outside::Float32 => "Float32".to_string(),
        Outside::Float64 => "Float64".to_string(),
        Outside::RustArcPtr(name) => format!("RustArcPtr({name})"),
        Outside::RustBuffer(_) => "RustBuffer".to_string(),
        Outside::Struct(name) => format!("Struct({name})"),
        Outside::RustCallStatus => "RustCallStatus".to_string(),
        other => format!("{other:?}"),
    }
}

fn ours(t: &Type) -> InterfaceType {
    match t {
        Type::UInt8 => InterfaceType::Primitive(Primitive::UInt8),
        Type::Int8 => InterfaceType::Primitive(Primitive::Int8),
        Type::UInt16 => InterfaceType::Primitive(Primitive::UInt16),
        Type::Int16 => InterfaceType::Primitive(Primitive::Int16),
        Type::UInt32 => InterfaceType::Primitive(Primitive::UInt32),
        Type::Int32 => InterfaceType::Primitive(Primitive::Int32),
        Type::UInt64 => InterfaceType::Primitive(Primitive::UInt64),
        Type::Int64 => InterfaceType::Primitive(Primitive::Int64),
        Type::Float32 => InterfaceType::Primitive(Primitive::Float32),
        Type::Float64 => InterfaceType::Primitive(Primitive::Float64),
        Type::Boolean => InterfaceType::Primitive(Primitive::Boolean),
        Type::String => InterfaceType::Primitive(Primitive::String),
        Type::Bytes => InterfaceType::Primitive(Primitive::Bytes),
        Type::Timestamp => InterfaceType::Primitive(Primitive::Timestamp),
        Type::Duration => InterfaceType::Primitive(Primitive::Duration),
        Type::Object { name, .. } => InterfaceType::Object { name: name.clone() },
        Type::Record { name, .. } => InterfaceType::Record { name: name.clone() },
        Type::Enum { name, .. } => InterfaceType::Enum { name: name.clone() },
        Type::CallbackInterface { name, .. } => InterfaceType::CallbackInterface { name: name.clone() },
        Type::Optional { inner_type } => InterfaceType::Optional { inner: Box::new(ours(inner_type)) },
        Type::Sequence { inner_type } => InterfaceType::Sequence { inner: Box::new(ours(inner_type)) },
        Type::Map { key_type, value_type } => InterfaceType::Mapping {
            key: Box::new(ours(key_type)),
            value: Box::new(ours(value_type)),
        },
        Type::Custom { name, builtin, .. } => InterfaceType::Custom {
            name: name.clone(),
            module: "sample".to_string(),
            builtin: Box::new(ours(builtin)),
        },
    }
}

fn interface() -> ComponentInterface {
    ComponentInterface::from_webidl(UDL, "sample").unwrap()
}

fn return_types(ci: &ComponentInterface) -> Vec<Option<Type>> {
    let returns = ci.get_callback_interface_definition("Returns").unwrap();
    let all: Vec<Option<Type>> =
        returns.methods().into_iter().map(|m| m.return_type().cloned()).collect();
    assert_eq!(all.len(), 29);
    assert_eq!(all.iter().filter(|t| t.is_none()).count(), 1);
    all
}

#[test]
fn lowering_agrees_with_the_interface_compiler_on_every_kind_of_type() {
    let ci = interface();
    let mut types: Vec<Type> = return_types(&ci).into_iter().flatten().collect();
    types.push(ci.get_callback_interface_definition("Parser").unwrap().as_type());
    assert_eq!(types.len(), 29);
    for theirs in types {
        assert_eq!(
            kind(&FfiType::of(&ours(&theirs))),
            outside_kind(&Outside::from(&theirs)),
            "{theirs:?}"
        );
    }
}

#[test]
fn return_shapes_agree_with_the_interface_compiler_on_every_return_type() {
    let ci = interface();
    for theirs in return_types(&ci) {
        let lowered = FfiType::of_return(&theirs.as_ref().map(ours));
        let outside = theirs.as_ref().map(Outside::from);
        assert_eq!(
            FfiType::return_type_name(lowered.as_ref()),
            Some(Outside::return_type_name(outside.as_ref())),
            "{theirs:?}"
        );
    }
}

#[test]
fn result_structs_agree_with_the_interface_compiler_on_every_return_type() {
    let ci = interface();
    let returns = ci.get_callback_interface_definition("Returns").unwrap();
    for m in returns.methods() {
        let expected = m.foreign_future_ffi_result_struct();
        let lowered = FfiType::of_return(&m.return_type().map(ours));
        let got = foreign_future_ffi_result_struct(lowered).unwrap();
        assert_eq!(got.name, expected.name(), "{}", m.name());
        assert_eq!(got.fields.len(), expected.fields().len(), "{}", m.name());
        for (g, e) in got.fields.iter().zip(expected.fields().iter()) {
            assert_eq!(g.name, e.name(), "{}", m.name());
            assert_eq!(kind(&g.type_), outside_kind(&e.type_()), "{}", m.name());
        }
    }
}
