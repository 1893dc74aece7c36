use uniffi_bindgen::interface::ffi::FfiType as Outside;
use uniffi_bindgen::interface::Type;
use uniffi_dart::ffi::{foreign_future_field_annotation, FfiType};
use uniffi_dart::ir::{InterfaceType, Primitive};
use uniffi_dart::oracle::{class_name, ffi_struct_class, ffi_struct_name, fn_name, var_name};
use uniffi_dart::registry::Registry;
use uniffi_dart::text::{
    decimal_string, join2, join3, join4, join5, join6, join7, signed_decimal_string, Code,
};

#[test]
fn class_names_are_upper_camel_case() {
    assert_eq!(class_name("my_callback"), "MyCallback");
    assert_eq!(class_name("XMLHttpRequest"), "XmlHttpRequest");
    assert_eq!(class_name("AsyncParser"), "AsyncParser");
}

#[test]
fn function_and_variable_names_are_lower_camel_case() {
    assert_eq!(fn_name("say_after"), "sayAfter");
    assert_eq!(fn_name("AsyncParser"), "asyncParser");
    assert_eq!(var_name("delay_ms"), "delayMs");
    assert_eq!(var_name("call_status"), "callStatus");
}

#[test]
fn struct_class_names_carry_the_prefix() {
    assert_eq!(ffi_struct_name("foreign_future_struct_u8"), "UniffiForeignFutureStructU8");
    assert_eq!(ffi_struct_class("Abc"), "UniffiAbc");
}

#[test]
fn decimal_text_of_numbers() {
    assert_eq!(decimal_string(0), "0");
    assert_eq!(decimal_string(7), "7");
    assert_eq!(decimal_string(10), "10");
    assert_eq!(decimal_string(1234567890), "1234567890");
    assert_eq!(decimal_string(u64::MAX), "18446744073709551615");
    assert_eq!(signed_decimal_string(0), "0");
    assert_eq!(signed_decimal_string(-1), "-1");
    assert_eq!(signed_decimal_string(123), "123");
    assert_eq!(signed_decimal_string(i64::MIN), "-9223372036854775808");
    assert_eq!(signed_decimal_string(i64::MAX), "9223372036854775807");
}

#[test]
fn joins_keep_the_order_of_their_pieces() {
    assert_eq!(join2("a", "b"), "ab");
    assert_eq!(join3("a", "b", "c"), "abc");
    assert_eq!(join4("a", "b", "c", "d"), "abcd");
    assert_eq!(join5("a", "b", "c", "d", "e"), "abcde");
    assert_eq!(join6("a", "b", "c", "d", "e", "f"), "abcdef");
    assert_eq!(join7("a", "b", "c", "d", "e", "f", "g"), "abcdefg");
}

#[test]
fn render_indents_by_four_spaces_per_level() {
    let mut code = Code::new();
    assert!(code.is_empty());
    code.push_line(0, "class A {".to_string());
    code.push_line(1, "int x;".to_string());
    code.push_blank();
    code.push_line(2, "deep".to_string());
    code.push_line(0, "}".to_string());
    assert_eq!(code.len(), 5);
    assert_eq!(code.render(), "class A {\n    int x;\n\n        deep\n}\n");
}

#[test]
fn render_of_nothing_is_empty() {
    assert_eq!(Code::new().render(), "");
}

#[test]
fn append_keeps_order_and_depth() {
    let mut inner = Code::new();
    inner.push_line(0, "a".to_string());
    inner.push_line(1, "b".to_string());
    let mut outer = Code::new();
    outer.push_line(0, "{".to_string());
    outer.append(inner);
    assert_eq!(outer.render(), "{\na\n    b\n");
}

#[test]
fn registry_records_each_name_once() {
    let mut registry = Registry::new();
    assert!(!registry.contains("A"));
    assert!(!registry.include_once_by_name("A"));
    assert!(registry.include_once_by_name("A"));
    assert!(!registry.include_once_by_name("B"));
    assert!(registry.contains("A"));
    assert!(registry.contains("B"));
    assert!(!registry.contains("C"));
    let fresh = Registry::new();
    assert!(!fresh.contains("A"));
}

#[test]
fn registry_checks_types_by_canonical_name() {
    let mut registry = Registry::new();
    let info = uniffi_dart::resolve::resolve(&InterfaceType::Record { name: "point".to_string() });
    assert!(!registry.include_once_check(&info));
    assert!(registry.include_once_check(&info));
    assert!(registry.contains("TypePoint"));
}

fn all_primitives() -> Vec<Primitive> {
    vec![
        Primitive::UInt8,
        Primitive::Int8,
        Primitive::UInt16,
        Primitive::Int16,
        Primitive::UInt32,
        Primitive::Int32,
        Primitive::UInt64,
        Primitive::Int64,
        Primitive::Float32,
        Primitive::Float64,
        Primitive::Boolean,
        Primitive::String,
        Primitive::Bytes,
        Primitive::Timestamp,
        Primitive::Duration,
    ]
}

fn outside_type(p: Primitive) -> Type {
    match p {
        Primitive::UInt8 => Type::UInt8,
        Primitive::Int8 => Type::Int8,
        Primitive::UInt16 => Type::UInt16,
        Primitive::Int16 => Type::Int16,
        Primitive::UInt32 => Type::UInt32,
        Primitive::Int32 => Type::Int32,
        Primitive::UInt64 => Type::UInt64,
        Primitive::Int64 => Type::Int64,
        Primitive::Float32 => Type::Float32,
        Primitive::Float64 => Type::Float64,
        Primitive::Boolean => Type::Boolean,
        Primitive::String => Type::String,
        Primitive::Bytes => Type::Bytes,
        Primitive::Timestamp => Type::Timestamp,
        Primitive::Duration => Type::Duration,
    }
}

#[test]
fn return_shape_names_agree_with_the_interface_compiler() {
    for p in all_primitives() {
        let ours = FfiType::of(&InterfaceType::Primitive(p));
        let theirs = Outside::from(&outside_type(p));
        assert_eq!(
            FfiType::return_type_name(Some(&ours)).unwrap(),
            Outside::return_type_name(Some(&theirs))
        );
    }
    assert_eq!(FfiType::return_type_name(None).unwrap(), Outside::return_type_name(None));
    let object = FfiType::of(&InterfaceType::Object { name: "O".to_string() });
    assert_eq!(
        FfiType::return_type_name(Some(&object)).unwrap(),
        Outside::return_type_name(Some(&Outside::RustArcPtr("O".to_string())))
    );
    let callback = FfiType::of(&InterfaceType::CallbackInterface { name: "C".to_string() });
    assert_eq!(FfiType::return_type_name(Some(&callback)).unwrap(), "u64");
    assert!(FfiType::return_type_name(Some(&FfiType::RustCallStatus)).is_none());
    assert!(FfiType::return_type_name(Some(&FfiType::Struct("S".to_string()))).is_none());
}

#[test]
fn lowering_of_composite_types_is_a_byte_buffer() {
    let types = vec![
        InterfaceType::Record { name: "R".to_string() },
        InterfaceType::Enum { name: "E".to_string() },
        InterfaceType::Optional { inner: Box::new(InterfaceType::Primitive(Primitive::Int8)) },
        InterfaceType::Sequence { inner: Box::new(InterfaceType::Primitive(Primitive::Int8)) },
        InterfaceType::Mapping {
            key: Box::new(InterfaceType::Primitive(Primitive::String)),
            value: Box::new(InterfaceType::Primitive(Primitive::Int8)),
        },
    ];
    for t in types {
        assert!(matches!(FfiType::of(&t), FfiType::RustBuffer));
    }
    let custom = InterfaceType::Custom {
        name: "H".to_string(),
        module: "m".to_string(),
        builtin: Box::new(InterfaceType::Primitive(Primitive::UInt16)),
    };
    assert!(matches!(FfiType::of(&custom), FfiType::UInt16));
    assert!(matches!(FfiType::of_return(&None), None));
    assert!(matches!(FfiType::of_return(&Some(custom)), Some(FfiType::UInt16)));
}

#[test]
fn labels_and_annotations_of_abi_types() {
    assert_eq!(FfiType::UInt8.native_label(), "Uint8");
    assert_eq!(FfiType::Int64.native_label(), "Int64");
    assert_eq!(FfiType::Float32.native_label(), "Float");
    assert_eq!(FfiType::Float64.native_label(), "Double");
    assert_eq!(FfiType::RustArcPtr("O".to_string()).native_label(), "Pointer<Void>");
    assert_eq!(FfiType::RustBuffer.native_label(), "RustBuffer");
    assert_eq!(FfiType::Struct("foreign_future".to_string()).native_label(), "UniffiForeignFuture");
    assert_eq!(FfiType::RustCallStatus.native_label(), "RustCallStatus");
    assert_eq!(FfiType::UInt32.dart_label(), "int");
    assert_eq!(FfiType::Float64.dart_label(), "double");
    assert_eq!(FfiType::RustBuffer.dart_label(), "RustBuffer");
    assert_eq!(FfiType::Struct("my_struct".to_string()).dart_label(), "UniffiMyStruct");
    assert_eq!(foreign_future_field_annotation(&FfiType::Int8), Some("@Int8()".to_string()));
    assert_eq!(foreign_future_field_annotation(&FfiType::UInt64), Some("@Uint64()".to_string()));
    assert_eq!(foreign_future_field_annotation(&FfiType::Float32), Some("@Float()".to_string()));
    assert_eq!(foreign_future_field_annotation(&FfiType::Float64), Some("@Double()".to_string()));
    assert_eq!(foreign_future_field_annotation(&FfiType::RustBuffer), None);
    assert_eq!(foreign_future_field_annotation(&FfiType::RustCallStatus), None);
    let copy = FfiType::RustArcPtr("O".to_string()).clone();
    assert!(matches!(copy, FfiType::RustArcPtr(ref n) if n == "O"));
}
