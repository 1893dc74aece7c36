use uniffi_dart::callback_interface::{
    generate_callback_functions, generate_callback_interface,
    generate_callback_interface_vtable_init_function, generate_callback_methods_definitions,
    generate_callback_methods_signatures, generate_callback_vtable_interface,
    generate_foreign_future_completion_typedef, generate_foreign_future_struct_definition,
    CallbackInterfaceCodeType,
};
use uniffi_dart::custom::CustomCodeType;
use uniffi_dart::error::GenerationError;
use uniffi_dart::ffi::{foreign_future_ffi_result_struct, FfiType};
use uniffi_dart::ir::{
    Argument, CallbackInterface, ComponentInterface, InterfaceType, Method, Primitive,
};
use uniffi_dart::registry::Registry;
use uniffi_dart::resolve::{foreign_future_completion_name, resolve, resolve_method};
use uniffi_dart::text::Code;

fn texts(code: &Code) -> Vec<String> {
    code.lines.iter().map(|l| l.text.clone()).collect()
}

fn count_with(code: &Code, needle: &str) -> usize {
    code.lines.iter().filter(|l| l.text.contains(needle)).count()
}

fn int32() -> InterfaceType {
    InterfaceType::Primitive(Primitive::Int32)
}

fn string() -> InterfaceType {
    InterfaceType::Primitive(Primitive::String)
}

fn method(name: &str, args: Vec<(&str, InterfaceType)>, ret: Option<InterfaceType>, is_async: bool, throws: Option<InterfaceType>) -> Method {
    Method {
        name: name.to_string(),
        arguments: args
            .into_iter()
            .map(|(n, t)| Argument { name: n.to_string(), type_: t })
            .collect(),
        return_type: ret,
        is_async,
        throws,
    }
}

fn two_methods(is_async: bool) -> Vec<Method> {
    vec![
        method("m1", vec![("x", int32())], Some(string()), is_async, None),
        method("m2", vec![], None, is_async, Some(InterfaceType::Enum { name: "E".to_string() })),
    ]
}

fn interface(name: &str, methods: Vec<Method>) -> ComponentInterface {
    ComponentInterface {
        namespace: "sample".to_string(),
        ffi_module: None,
        callback_interfaces: vec![CallbackInterface {
            name: name.to_string(),
            namespace: None,
            methods,
        }],
    }
}

#[test]
fn vtable_has_two_fixed_slots_then_one_per_method_in_order() {
    let code = generate_callback_vtable_interface("Parser", &two_methods(false));
    assert_eq!(
        texts(&code),
        vec![
            "final class UniffiVTableCallbackInterfaceParser extends Struct {",
            "external Pointer<NativeFunction<UniffiCallbackInterfaceParserFree>> uniffiFree;",
            "external Pointer<NativeFunction<UniffiCallbackInterfaceParserClone>> uniffiClone;",
            "external Pointer<NativeFunction<UniffiCallbackInterfaceParserMethod0>> m1;",
            "external Pointer<NativeFunction<UniffiCallbackInterfaceParserMethod1>> m2;",
            "}",
        ]
    );
    assert_eq!(code.lines[0].depth, 0);
    assert_eq!(code.lines[1].depth, 1);
    assert_eq!(code.lines[4].depth, 1);
    assert_eq!(code.lines[5].depth, 0);
}

#[test]
fn vtable_of_an_interface_without_methods_has_the_fixed_slots_only() {
    let code = generate_callback_vtable_interface("Empty", &vec![]);
    assert_eq!(code.len(), 4);
    assert_eq!(count_with(&code, "external "), 2);
}

#[test]
fn vtable_slots_follow_a_changed_method_order() {
    let mut methods = two_methods(false);
    methods.reverse();
    let code = generate_callback_vtable_interface("Parser", &methods);
    assert!(code.lines[3].text.ends_with("Method0>> m2;"));
    assert!(code.lines[4].text.ends_with("Method1>> m1;"));
}

#[test]
fn sync_interface_emits_one_handle_table_one_vtable_and_two_trampolines() {
    let ci = interface("Parser", two_methods(false));
    let code_type = CallbackInterfaceCodeType::new(
        "Parser".to_string(),
        InterfaceType::CallbackInterface { name: "Parser".to_string() },
    );
    let mut registry = Registry::new();
    let code = code_type.render_type_helper(&ci, &mut registry).unwrap();
    assert_eq!(count_with(&code, "static final _handleMap = UniffiHandleMap<Parser>();"), 1);
    assert_eq!(count_with(&code, "final class UniffiVTableCallbackInterfaceParser extends Struct {"), 1);
    assert_eq!(count_with(&code, "external Pointer<NativeFunction<"), 4);
    assert_eq!(count_with(&code, "void parserM1("), 1);
    assert_eq!(count_with(&code, "void parserM2("), 1);
    assert_eq!(count_with(&code, "Pointer<RustCallStatus> callStatus) {"), 2);
    assert_eq!(count_with(&code, "extends Struct {"), 1);
    assert_eq!(count_with(&code, "typedef UniffiForeignFutureComplete"), 0);
    assert_eq!(count_with(&code, "uniffi_sample_fn_init_callback_vtable_parser("), 1);
    assert!(registry.contains("CallbackInterfaceParser"));
}

#[test]
fn async_methods_with_distinct_shapes_emit_one_pair_each() {
    let ci = interface("Parser", two_methods(true));
    let code_type = CallbackInterfaceCodeType::new(
        "Parser".to_string(),
        InterfaceType::CallbackInterface { name: "Parser".to_string() },
    );
    let mut registry = Registry::new();
    let code = code_type.render_type_helper(&ci, &mut registry).unwrap();
    assert_eq!(count_with(&code, "final class UniffiForeignFutureStructRustBuffer extends Struct {"), 1);
    assert_eq!(count_with(&code, "final class UniffiForeignFutureStructVoid extends Struct {"), 1);
    assert_eq!(count_with(&code, "typedef UniffiForeignFutureCompleteRustBuffer = "), 1);
    assert_eq!(count_with(&code, "typedef UniffiForeignFutureCompleteRustBufferDart = "), 1);
    assert_eq!(count_with(&code, "typedef UniffiForeignFutureCompleteVoid = "), 1);
    assert_eq!(count_with(&code, "typedef UniffiForeignFutureCompleteVoidDart = "), 1);
    assert_eq!(count_with(&code, "() async {"), 2);
    assert!(registry.contains("ForeignFutureStructRustBuffer"));
    assert!(registry.contains("ForeignFutureCompleteVoid"));
}

#[test]
fn async_methods_that_share_a_shape_share_one_pair() {
    let methods = vec![
        method("first", vec![], Some(string()), true, None),
        method("second", vec![("x", int32())], Some(string()), true, None),
        method("third", vec![], Some(InterfaceType::Record { name: "R".to_string() }), true, None),
    ];
    let mut registry = Registry::new();
    let code = generate_callback_interface("Parser", "FfiConverterCallbackInterfaceParser", &methods, &mut registry);
    assert_eq!(count_with(&code, "final class UniffiForeignFutureStructRustBuffer extends Struct {"), 1);
    assert_eq!(count_with(&code, "typedef UniffiForeignFutureCompleteRustBuffer = "), 1);
    assert_eq!(count_with(&code, "typedef UniffiForeignFutureCompleteRustBufferDart = "), 1);
    assert_eq!(count_with(&code, "extends Struct {"), 1);
}

#[test]
fn async_support_is_not_emitted_again_in_the_same_run() {
    let methods = vec![method("first", vec![], Some(int32()), true, None)];
    let mut registry = Registry::new();
    let first = generate_callback_interface("A", "FfiConverterCallbackInterfaceA", &methods, &mut registry);
    let second = generate_callback_interface("B", "FfiConverterCallbackInterfaceB", &methods, &mut registry);
    assert_eq!(count_with(&first, "final class UniffiForeignFutureStructI32 extends Struct {"), 1);
    assert_eq!(count_with(&second, "final class UniffiForeignFutureStructI32 extends Struct {"), 0);
    assert_eq!(count_with(&second, "typedef UniffiForeignFutureCompleteI32 = "), 0);
    let mut fresh = Registry::new();
    let again = generate_callback_interface("B", "FfiConverterCallbackInterfaceB", &methods, &mut fresh);
    assert_eq!(count_with(&again, "final class UniffiForeignFutureStructI32 extends Struct {"), 1);
}

#[test]
fn callback_interface_is_rendered_once_per_run() {
    let ci = interface("Parser", two_methods(true));
    let code_type = CallbackInterfaceCodeType::new(
        "Parser".to_string(),
        InterfaceType::CallbackInterface { name: "Parser".to_string() },
    );
    let mut registry = Registry::new();
    let first = code_type.render_type_helper(&ci, &mut registry).unwrap();
    let second = code_type.render_type_helper(&ci, &mut registry).unwrap();
    assert!(!first.is_empty());
    assert!(second.is_empty());
}

#[test]
fn unknown_callback_interface_aborts_with_its_name() {
    let ci = interface("Parser", two_methods(false));
    let code_type = CallbackInterfaceCodeType::new(
        "Missing".to_string(),
        InterfaceType::CallbackInterface { name: "Missing".to_string() },
    );
    let mut registry = Registry::new();
    let r = code_type.render_type_helper(&ci, &mut registry);
    match r {
        Err(e) => {
            assert_eq!(e, GenerationError::UnknownCallbackInterface { name: "Missing".to_string() });
            assert_eq!(e.message(), "callback interface is not defined: Missing");
        }
        Ok(_) => panic!("an unknown interface was rendered"),
    }
    assert!(!registry.contains("CallbackInterfaceMissing"));
}

#[test]
fn unsupported_return_type_is_an_error() {
    let r = foreign_future_ffi_result_struct(Some(FfiType::RustCallStatus));
    match r {
        Err(e) => {
            assert_eq!(e, GenerationError::UnsupportedReturnType { label: "RustCallStatus".to_string() });
            assert_eq!(e.message(), "ABI type cannot be returned: RustCallStatus");
        }
        Ok(_) => panic!("a status marker was accepted as a return type"),
    }
    assert!(foreign_future_ffi_result_struct(Some(FfiType::Struct("S".to_string()))).is_err());
}

#[test]
fn code_type_names_of_a_callback_interface() {
    let code_type = CallbackInterfaceCodeType::new(
        "my_parser".to_string(),
        InterfaceType::CallbackInterface { name: "my_parser".to_string() },
    );
    assert_eq!(code_type.type_label(), "MyParser");
    assert_eq!(code_type.canonical_name(), "CallbackInterfaceMyParser");
    assert_eq!(code_type.ffi_converter_name(), "FfiConverterCallbackInterfaceMyParser");
    assert_eq!(
        code_type.initialization_fn(),
        Some("_uniffiInitializeCallbackInterfacemy_parser".to_string())
    );
}

#[test]
fn method_definitions_lift_types_and_wrap_async_in_futures() {
    let sync = generate_callback_methods_definitions(&two_methods(false)[0]);
    assert_eq!(texts(&sync), vec!["String m1(int x, );"]);
    let sync_void = generate_callback_methods_definitions(&two_methods(false)[1]);
    assert_eq!(texts(&sync_void), vec!["void m2();"]);
    let a = generate_callback_methods_definitions(&two_methods(true)[0]);
    assert_eq!(texts(&a), vec!["Future<String> m1(int x, );"]);
    let a_void = generate_callback_methods_definitions(&two_methods(true)[1]);
    assert_eq!(texts(&a_void), vec!["Future<void> m2();"]);
}

#[test]
fn sync_signatures_put_handle_arguments_out_slot_and_status_in_order() {
    let code = generate_callback_methods_signatures("Parser", &two_methods(false));
    assert_eq!(
        texts(&code),
        vec![
            "typedef UniffiCallbackInterfaceParserMethod0 = Void Function(Uint64, Int32, Pointer<RustBuffer>, Pointer<RustCallStatus>);",
            "typedef UniffiCallbackInterfaceParserMethod0Dart = void Function(int, int, Pointer<RustBuffer>, Pointer<RustCallStatus>);",
            "typedef UniffiCallbackInterfaceParserMethod1 = Void Function(Uint64, Pointer<Void>, Pointer<RustCallStatus>);",
            "typedef UniffiCallbackInterfaceParserMethod1Dart = void Function(int, Pointer<Void>, Pointer<RustCallStatus>);",
            "typedef UniffiCallbackInterfaceParserFree = Void Function(Uint64);",
            "typedef UniffiCallbackInterfaceParserFreeDart = void Function(int);",
            "typedef UniffiCallbackInterfaceParserClone = Uint64 Function(Uint64);",
            "typedef UniffiCallbackInterfaceParserCloneDart = int Function(int);",
        ]
    );
}

#[test]
fn async_signatures_take_the_completion_callback() {
    let code = generate_callback_methods_signatures("Parser", &two_methods(true));
    assert_eq!(
        code.lines[0].text,
        "typedef UniffiCallbackInterfaceParserMethod0 = Void Function(Uint64, Int32, Pointer<NativeFunction<UniffiForeignFutureCompleteRustBuffer>>, Uint64, Pointer<UniffiForeignFuture>);"
    );
    assert_eq!(
        code.lines[3].text,
        "typedef UniffiCallbackInterfaceParserMethod1Dart = void Function(int, Pointer<NativeFunction<UniffiForeignFutureCompleteVoid>>, int, Pointer<UniffiForeignFuture>);"
    );
}

#[test]
fn sync_trampoline_wraps_the_call_and_maps_failures_to_the_status() {
    let code = generate_callback_functions("Parser", &two_methods(false), &mut Registry::new());
    let t = texts(&code);
    assert_eq!(
        t[0],
        "void parserM1(int uniffiHandle, int x, Pointer<RustBuffer> outReturn, Pointer<RustCallStatus> callStatus) {"
    );
    assert_eq!(t[1], "final status = callStatus.ref;");
    assert_eq!(t[2], "try {");
    assert_eq!(t[3], "final obj = FfiConverterCallbackInterfaceParser._handleMap.get(uniffiHandle);");
    assert_eq!(t[4], "final arg0 = FfiConverterInt32.lift(x);");
    assert_eq!(t[5], "final result = obj.m1(arg0, );");
    assert_eq!(t[6], "outReturn.value = FfiConverterString.lower(result);");
    assert_eq!(t[7], "status.code = CALL_SUCCESS;");
    assert_eq!(t[8], "} catch (e) {");
    assert_eq!(t[9], "status.code = CALL_UNEXPECTED_ERROR;");
    assert_eq!(t[10], "status.errorBuf = FfiConverterString.lower(e.toString());");
    assert_eq!(count_with(&code, "obj.m2();"), 1);
    assert_eq!(count_with(&code, "void parserFreeCallback(int handle) {"), 1);
    assert_eq!(count_with(&code, "int parserCloneCallback(int handle) {"), 1);
    assert_eq!(count_with(&code, "Pointer.fromFunction<UniffiCallbackInterfaceParserMethod0>(parserM1);"), 1);
    assert_eq!(count_with(&code, "Pointer.fromFunction<UniffiCallbackInterfaceParserMethod1>(parserM2);"), 1);
}

fn position(code: &Code, text: &str) -> usize {
    let found: Vec<usize> = code
        .lines
        .iter()
        .enumerate()
        .filter(|(_, l)| l.text == text)
        .map(|(i, _)| i)
        .collect();
    assert_eq!(found.len(), 1, "{}", text);
    found[0]
}

#[test]
fn async_trampoline_of_a_method_with_a_value() {
    let methods = vec![method("m1", vec![("x", int32())], Some(string()), true, None)];
    let mut registry = Registry::new();
    let code = generate_callback_functions("Parser", &methods, &mut registry);
    let t = texts(&code);
    assert_eq!(
        &t[..43],
        &[
            "void parserM1(",
            "int uniffiHandle,",
            "int x,",
            "Pointer<NativeFunction<UniffiForeignFutureCompleteRustBuffer>> uniffiFutureCallback,",
            "int uniffiCallbackData,",
            "Pointer<UniffiForeignFuture> outReturn,",
            ") {",
            "final callback = uniffiFutureCallback.asFunction<UniffiForeignFutureCompleteRustBufferDart>();",
            "final state = _UniffiForeignFutureState();",
            "final handle = _uniffiForeignFutureHandleMap.insert(state);",
            "outReturn.ref.handle = handle;",
            "outReturn.ref.free = _uniffiForeignFutureFreePointer;",
            "",
            "() async {",
            "final resultStructPtr = calloc<UniffiForeignFutureStructRustBuffer>();",
            "try {",
            "try {",
            "final obj = FfiConverterCallbackInterfaceParser._handleMap.get(uniffiHandle);",
            "final arg0 = FfiConverterInt32.lift(x);",
            "final result = await obj.m1(arg0, );",
            "resultStructPtr.ref.returnValue = FfiConverterString.lower(result);",
            "resultStructPtr.ref.callStatus.code = CALL_SUCCESS;",
            "} catch (e) {",
            "resultStructPtr.ref.callStatus.code = CALL_UNEXPECTED_ERROR;",
            "resultStructPtr.ref.callStatus.errorBuf = FfiConverterString.lower(e.toString());",
            "}",
            "final removedState = _uniffiForeignFutureHandleMap.maybeRemove(handle);",
            "final effectiveState = removedState ?? state;",
            "if (effectiveState.cancelled) {",
            "return;",
            "}",
            "effectiveState.cancelled = true;",
            "callback(uniffiCallbackData, resultStructPtr.ref);",
            "} finally {",
            "calloc.free(resultStructPtr);",
            "}",
            "}();",
            "}",
            "",
            "final Pointer<NativeFunction<UniffiCallbackInterfaceParserMethod0>> parserM1Pointer =",
            "Pointer.fromFunction<UniffiCallbackInterfaceParserMethod0>(parserM1);",
            "",
            "void parserFreeCallback(int handle) {",
        ]
    );
    let depths: Vec<usize> = code.lines[13..37].iter().map(|l| l.depth).collect();
    assert_eq!(
        depths,
        vec![1, 2, 2, 3, 4, 4, 4, 4, 4, 3, 4, 4, 3, 3, 3, 3, 4, 3, 3, 3, 2, 3, 2, 1]
    );
}

#[test]
fn async_trampoline_lowers_before_it_settles_and_fires_once() {
    let methods = vec![method("m1", vec![("x", int32())], Some(string()), true, None)];
    let mut registry = Registry::new();
    let code = generate_callback_functions("Parser", &methods, &mut registry);
    let wrapper = position(&code, "() async {");
    let lookup = position(&code, "final obj = FfiConverterCallbackInterfaceParser._handleMap.get(uniffiHandle);");
    let lift = position(&code, "final arg0 = FfiConverterInt32.lift(x);");
    let lower = position(&code, "resultStructPtr.ref.returnValue = FfiConverterString.lower(result);");
    let unexpected = position(&code, "resultStructPtr.ref.callStatus.code = CALL_UNEXPECTED_ERROR;");
    let test = position(&code, "if (effectiveState.cancelled) {");
    let mark = position(&code, "effectiveState.cancelled = true;");
    let fire = position(&code, "callback(uniffiCallbackData, resultStructPtr.ref);");
    assert!(wrapper < lookup && lookup < lift && lift < lower);
    assert_eq!(code.lines[lookup - 1].text, "try {");
    assert!(lower < unexpected && unexpected < test);
    assert_eq!(mark, test + 3);
    assert_eq!(fire, mark + 1);
    assert_eq!(count_with(&code, "resultStructPtr.ref.callStatus.code = CALL_ERROR;"), 0);
}

#[test]
fn async_trampoline_of_a_void_method_has_no_value_to_lower() {
    let methods = vec![method("m2", vec![], None, true, None)];
    let mut registry = Registry::new();
    let code = generate_callback_functions("Parser", &methods, &mut registry);
    assert_eq!(count_with(&code, "await obj.m2();"), 1);
    assert_eq!(count_with(&code, "final result = "), 0);
    assert_eq!(count_with(&code, "resultStructPtr.ref.returnValue"), 0);
    assert_eq!(count_with(&code, "final resultStructPtr = calloc<UniffiForeignFutureStructVoid>();"), 1);
    assert_eq!(count_with(&code, "resultStructPtr.ref.callStatus.code = CALL_SUCCESS;"), 1);
    assert_eq!(count_with(&code, "callback(uniffiCallbackData, resultStructPtr.ref);"), 1);
}

#[test]
fn async_trampoline_lowers_a_declared_error_with_its_own_status() {
    let error = InterfaceType::Enum { name: "parser_error".to_string() };
    let methods = vec![method("try_it", vec![], Some(int32()), true, Some(error))];
    let mut registry = Registry::new();
    let code = generate_callback_functions("Parser", &methods, &mut registry);
    let success = position(&code, "resultStructPtr.ref.callStatus.code = CALL_SUCCESS;");
    let typed = position(&code, "} on ParserError catch (e) {");
    let lowered = position(&code, "resultStructPtr.ref.callStatus.errorBuf = FfiConverterTypeParserError.lower(e);");
    let status = position(&code, "resultStructPtr.ref.callStatus.code = CALL_ERROR;");
    let fallback = position(&code, "} catch (failure) {");
    let other = fallback + 4;
    assert_eq!(code.lines[other].text, "} catch (e) {");
    assert_eq!(code.lines[other].depth, 3);
    let test = position(&code, "if (effectiveState.cancelled) {");
    assert_eq!(typed, success + 1);
    assert_eq!(lowered, typed + 2);
    assert_eq!(status, lowered + 1);
    assert_eq!(fallback, status + 1);
    assert_eq!(
        code.lines[fallback + 2].text,
        "resultStructPtr.ref.callStatus.errorBuf = FfiConverterString.lower(failure.toString());"
    );
    assert!(fallback < other && other < test);
    assert_eq!(count_with(&code, "resultStructPtr.ref.callStatus.code = CALL_UNEXPECTED_ERROR;"), 2);
    assert_eq!(count_with(&code, "callback(uniffiCallbackData, resultStructPtr.ref);"), 1);
    let info = resolve_method(&methods[0]);
    assert_eq!(info.throws.unwrap().codec_name, "FfiConverterTypeParserError");
}

#[test]
fn a_declared_error_changes_the_async_trampoline_only_by_its_branch() {
    let error = InterfaceType::Enum { name: "E".to_string() };
    let mut registry = Registry::new();
    let without = generate_callback_functions(
        "Parser",
        &vec![method("m", vec![], None, true, None)],
        &mut registry,
    );
    let with = generate_callback_functions(
        "Parser",
        &vec![method("m", vec![], None, true, Some(error))],
        &mut registry,
    );
    assert_eq!(with.len(), without.len() + 8);
    let sync_without = generate_callback_functions(
        "Parser",
        &vec![method("m", vec![], None, false, None)],
        &mut registry,
    );
    let sync_with = generate_callback_functions(
        "Parser",
        &vec![method("m", vec![], None, false, Some(InterfaceType::Enum { name: "E".to_string() }))],
        &mut registry,
    );
    assert_eq!(sync_with.render(), sync_without.render());
}

#[test]
fn async_return_types_are_requested_and_not_marked_emitted() {
    let methods = vec![
        method("a", vec![], Some(InterfaceType::Record { name: "point".to_string() }), true, None),
        method("b", vec![], Some(string()), false, None),
        method("c", vec![], None, true, None),
    ];
    let mut registry = Registry::new();
    assert!(!registry.is_requested("TypePoint"));
    let _ = generate_callback_functions("Parser", &methods, &mut registry);
    assert!(registry.is_requested("TypePoint"));
    assert!(!registry.is_requested("String"));
    assert!(!registry.contains("TypePoint"));
    registry.request("TypePoint");
    registry.request("Other");
    assert!(registry.is_requested("Other"));
    assert!(!registry.include_once_by_name("TypePoint"));
    assert!(registry.is_requested("TypePoint"));
}

#[test]
fn vtable_init_tests_and_sets_its_flag_before_it_registers() {
    let code = generate_callback_interface_vtable_init_function("Parser", &two_methods(false), "sample");
    let t = texts(&code);
    assert_eq!(t[0], "late final Pointer<UniffiVTableCallbackInterfaceParser> parserVTable;");
    assert_eq!(t[2], "void initParserVTable() {");
    assert_eq!(t[3], "if (FfiConverterCallbackInterfaceParser._vtableInitialized) {");
    assert_eq!(t[4], "return;");
    assert_eq!(t[5], "}");
    assert_eq!(t[6], "FfiConverterCallbackInterfaceParser._vtableInitialized = true;");
    assert_eq!(t[8], "parserVTable = calloc<UniffiVTableCallbackInterfaceParser>();");
    assert_eq!(t[9], "parserVTable.ref.uniffiFree = parserFreePointer;");
    assert_eq!(t[10], "parserVTable.ref.uniffiClone = parserClonePointer;");
    assert_eq!(t[11], "parserVTable.ref.m1 = parserM1Pointer;");
    assert_eq!(t[12], "parserVTable.ref.m2 = parserM2Pointer;");
    assert_eq!(t[15], "uniffi_sample_fn_init_callback_vtable_parser(");
    assert_eq!(t.len(), 21);
    assert_eq!(count_with(&code, "_vtableInitialized = true;"), 1);
    assert_eq!(count_with(&code, "_vtableInitialized) {"), 1);
}

#[test]
fn converter_enters_the_registration_through_the_one_guard() {
    let mut registry = Registry::new();
    let code = generate_callback_interface("Parser", "FfiConverterCallbackInterfaceParser", &vec![], &mut registry);
    let entry = position(&code, "static void _ensureVTableInitialized() {");
    assert_eq!(code.lines[entry + 1].text, "initParserVTable();");
    assert_eq!(code.lines[entry + 2].text, "}");
    assert_eq!(count_with(&code, "_vtableInitialized = true;"), 0);
    assert_eq!(count_with(&code, "static bool _vtableInitialized = false;"), 1);
}

#[test]
fn native_symbol_carries_the_inferred_module_or_a_namespace() {
    let render = |ffi_module: Option<&str>, namespace: Option<&str>| {
        let ci = ComponentInterface {
            namespace: "component".to_string(),
            ffi_module: ffi_module.map(|s| s.to_string()),
            callback_interfaces: vec![CallbackInterface {
                name: "Parser".to_string(),
                namespace: namespace.map(|s| s.to_string()),
                methods: vec![],
            }],
        };
        assert_eq!(
            ci.ffi_module_for(&ci.callback_interfaces[0]),
            ffi_module.or(namespace).unwrap_or("component")
        );
        let code_type = CallbackInterfaceCodeType::new(
            "Parser".to_string(),
            InterfaceType::CallbackInterface { name: "Parser".to_string() },
        );
        code_type.render_type_helper(&ci, &mut Registry::new()).unwrap()
    };
    assert_eq!(count_with(&render(Some("crate_a"), Some("ns")), "uniffi_crate_a_fn_init_callback_vtable_parser("), 1);
    assert_eq!(count_with(&render(None, Some("ns")), "uniffi_ns_fn_init_callback_vtable_parser("), 1);
    assert_eq!(count_with(&render(None, None), "uniffi_component_fn_init_callback_vtable_parser("), 1);
}

#[test]
fn vtable_init_lowercases_the_name_in_the_native_symbol() {
    let code = generate_callback_interface_vtable_init_function("AsyncParser", &vec![], "m");
    assert_eq!(count_with(&code, "uniffi_m_fn_init_callback_vtable_asyncparser("), 1);
}

#[test]
fn result_struct_of_a_scalar_has_value_then_status() {
    let s = foreign_future_ffi_result_struct(Some(FfiType::UInt8)).unwrap();
    assert_eq!(s.name, "ForeignFutureStructU8");
    assert_eq!(s.fields.len(), 2);
    assert_eq!(s.fields[0].name, "return_value");
    assert_eq!(s.fields[1].name, "call_status");
    let code = generate_foreign_future_struct_definition(&s);
    assert_eq!(
        texts(&code),
        vec![
            "final class UniffiForeignFutureStructU8 extends Struct {",
            "@Uint8()",
            "external int returnValue;",
            "external RustCallStatus callStatus;",
            "}",
        ]
    );
}

#[test]
fn result_struct_of_void_has_the_status_only() {
    let s = foreign_future_ffi_result_struct(None).unwrap();
    assert_eq!(s.name, "ForeignFutureStructVoid");
    assert_eq!(s.fields.len(), 1);
    assert_eq!(s.fields[0].name, "call_status");
    let code = generate_foreign_future_struct_definition(&s);
    assert_eq!(
        texts(&code),
        vec![
            "final class UniffiForeignFutureStructVoid extends Struct {",
            "external RustCallStatus callStatus;",
            "}",
        ]
    );
}

#[test]
fn completion_typedef_names_the_struct() {
    let code = generate_foreign_future_completion_typedef("ForeignFutureCompleteU8", "ForeignFutureStructU8");
    assert_eq!(
        texts(&code),
        vec![
            "typedef UniffiForeignFutureCompleteU8 = Void Function(Uint64, UniffiForeignFutureStructU8);",
            "typedef UniffiForeignFutureCompleteU8Dart = void Function(int, UniffiForeignFutureStructU8);",
        ]
    );
}

#[test]
fn completion_name_derives_from_the_return_shape() {
    let a = method("a", vec![], Some(string()), true, None);
    let b = method("b", vec![("x", int32())], Some(InterfaceType::Optional { inner: Box::new(int32()) }), true, None);
    let c = method("c", vec![], None, true, None);
    let d = method("d", vec![], Some(InterfaceType::Object { name: "O".to_string() }), true, None);
    assert_eq!(foreign_future_completion_name(&a), "ForeignFutureCompleteRustBuffer");
    assert_eq!(foreign_future_completion_name(&b), "ForeignFutureCompleteRustBuffer");
    assert_eq!(foreign_future_completion_name(&c), "ForeignFutureCompleteVoid");
    assert_eq!(foreign_future_completion_name(&d), "ForeignFutureCompletePointer");
    let info = resolve_method(&d);
    let completion = info.completion.unwrap();
    assert_eq!(completion.native_name, "UniffiForeignFutureCompletePointer");
    assert_eq!(completion.struct_name, "ForeignFutureStructPointer");
    assert_eq!(completion.structure.class_name, "UniffiForeignFutureStructPointer");
}

fn custom(name: &str, builtin: InterfaceType) -> CustomCodeType {
    CustomCodeType::new(name.to_string(), "sample".to_string(), Box::new(builtin))
}

#[test]
fn custom_type_wraps_its_builtin_and_delegates_the_codec() {
    let mut registry = Registry::new();
    let code = custom("Handle", InterfaceType::Primitive(Primitive::Int64)).render_type_helper(&mut registry);
    let t = texts(&code);
    assert_eq!(t[0], "class Handle {");
    assert_eq!(t[1], "final int value;");
    assert_eq!(count_with(&code, "class FfiConverterTypeHandle {"), 1);
    assert_eq!(count_with(&code, "static Handle lift(int buf) {"), 1);
    assert_eq!(count_with(&code, "final builtinValue = FfiConverterInt64.lift(buf);"), 1);
    assert_eq!(count_with(&code, "return FfiConverterInt64.lower(value.value);"), 1);
    assert_eq!(count_with(&code, "final builtinResult = FfiConverterInt64.read(buf, offset);"), 1);
    assert_eq!(count_with(&code, "return FfiConverterInt64.write(value.value, buf);"), 1);
    assert_eq!(count_with(&code, "return FfiConverterInt64.allocationSize(value.value);"), 1);
    assert_eq!(count_with(&code, "String toString() => value.toString();"), 1);
    assert_eq!(count_with(&code, "other.value == value;"), 1);
    assert_eq!(count_with(&code, "int get hashCode => value.hashCode;"), 1);
    assert!(registry.contains("TypeHandle"));
}

#[test]
fn two_custom_types_around_one_builtin_are_two_definitions() {
    let mut registry = Registry::new();
    let a = custom("Handle", InterfaceType::Primitive(Primitive::Int64)).render_type_helper(&mut registry);
    let b = custom("Ticket", InterfaceType::Primitive(Primitive::Int64)).render_type_helper(&mut registry);
    assert!(!a.is_empty());
    assert!(!b.is_empty());
    assert_ne!(a.render(), b.render());
    assert_eq!(a.lines[0].text, "class Handle {");
    assert_eq!(b.lines[0].text, "class Ticket {");
}

#[test]
fn one_custom_type_referenced_twice_is_one_definition() {
    let mut registry = Registry::new();
    let first = custom("Handle", InterfaceType::Primitive(Primitive::Int64)).render_type_helper(&mut registry);
    let second = custom("Handle", InterfaceType::Primitive(Primitive::Int64)).render_type_helper(&mut registry);
    assert!(!first.is_empty());
    assert!(second.is_empty());
    assert_eq!(second.render(), "");
}

#[test]
fn custom_type_as_type_keeps_name_module_and_builtin() {
    let t = custom("Handle", string()).as_type();
    match t {
        InterfaceType::Custom { name, module, builtin } => {
            assert_eq!(name, "Handle");
            assert_eq!(module, "sample");
            assert!(matches!(*builtin, InterfaceType::Primitive(Primitive::String)));
        }
        _ => panic!("not a custom type"),
    }
    assert_eq!(custom("url_type", string()).type_label(), "UrlType");
}

#[test]
fn generation_is_deterministic() {
    let run = || {
        let ci = interface("Parser", two_methods(true));
        let code_type = CallbackInterfaceCodeType::new(
            "Parser".to_string(),
            InterfaceType::CallbackInterface { name: "Parser".to_string() },
        );
        let mut registry = Registry::new();
        let mut code = code_type.render_type_helper(&ci, &mut registry).unwrap();
        code.append(custom("Handle", int32()).render_type_helper(&mut registry));
        code.render()
    };
    let first = run();
    let second = run();
    assert!(!first.is_empty());
    assert_eq!(first.as_bytes(), second.as_bytes());
}

#[test]
fn same_type_resolves_to_the_same_names_wherever_it_occurs() {
    let a = InterfaceType::Sequence { inner: Box::new(InterfaceType::Record { name: "point".to_string() }) };
    let b = InterfaceType::Sequence { inner: Box::new(InterfaceType::Record { name: String::from("point") }) };
    let ra = resolve(&a);
    let rb = resolve(&b);
    assert_eq!(ra.canonical_name, rb.canonical_name);
    assert_eq!(ra.canonical_name, "SequenceTypePoint");
    assert_eq!(ra.codec_name, "FfiConverterSequenceTypePoint");
    assert_eq!(ra.label, "List<Point>");
    assert_eq!(ra.init_hook, None);
}

#[test]
fn resolution_of_each_kind_of_type() {
    let opt = resolve(&InterfaceType::Optional { inner: Box::new(string()) });
    assert_eq!(opt.label, "String?");
    assert_eq!(opt.canonical_name, "OptionalString");
    let map = resolve(&InterfaceType::Mapping { key: Box::new(string()), value: Box::new(int32()) });
    assert_eq!(map.label, "Map<String, int>");
    assert_eq!(map.canonical_name, "MapStringInt32");
    let cb = resolve(&InterfaceType::CallbackInterface { name: "parser".to_string() });
    assert_eq!(cb.label, "Parser");
    assert_eq!(cb.canonical_name, "CallbackInterfaceParser");
    assert_eq!(cb.init_hook, Some("_uniffiInitializeCallbackInterfaceparser".to_string()));
    let obj = resolve(&InterfaceType::Object { name: "megaphone".to_string() });
    assert_eq!(obj.canonical_name, "TypeMegaphone");
    assert!(matches!(obj.ffi_type, FfiType::RustArcPtr(_)));
    let custom = resolve(&InterfaceType::Custom {
        name: "handle".to_string(),
        module: "m".to_string(),
        builtin: Box::new(InterfaceType::Primitive(Primitive::Int64)),
    });
    assert_eq!(custom.label, "Handle");
    assert!(matches!(custom.ffi_type, FfiType::Int64));
    let b = resolve(&InterfaceType::Primitive(Primitive::Boolean));
    assert_eq!(b.label, "bool");
    assert_eq!(b.codec_name, "FfiConverterBool");
    assert!(matches!(b.ffi_type, FfiType::Int8));
    let f = resolve(&InterfaceType::Primitive(Primitive::Float32));
    assert_eq!(f.label, "double");
    assert_eq!(f.canonical_name, "Double32");
}

#[test]
fn definition_lookup_takes_the_first_of_that_name() {
    let ci = ComponentInterface {
        namespace: "n".to_string(),
        ffi_module: None,
        callback_interfaces: vec![
            CallbackInterface { name: "A".to_string(), namespace: None, methods: vec![] },
            CallbackInterface { name: "B".to_string(), namespace: None, methods: two_methods(false) },
            CallbackInterface { name: "B".to_string(), namespace: None, methods: vec![] },
        ],
    };
    assert_eq!(ci.get_callback_interface_definition("B").unwrap().methods.len(), 2);
    assert!(ci.get_callback_interface_definition("C").is_none());
}
