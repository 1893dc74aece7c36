//! The emitters: from resolved names to the lines of Dart code.
//!
//! Every emitter works on names that are already resolved, so its contract
//! states the emitted lines exactly. Orders that native code depends on are
//! part of those contracts: the parameters of a trampoline, the slots of a
//! vtable, the fields of a struct.

use vstd::prelude::*;
use crate::ffi::{dart_label_of, native_label_of};
use crate::registry::Registry;
use crate::resolve::{
    codec_of, method_info_views, ArgumentInfo, ArgumentInfoView, CompletionInfoView,
    FieldInfoView, MethodInfo, MethodInfoView, StructInfo, StructInfoView, TypeInfo, TypeInfoView,
};
use crate::text::{
    decimal, decimal_string, join2, join3, join4, join5, join6, join7, lemma_flatten_bounds,
    lemma_flatten_step, line, Code, LineView,
};

verus! {

/// The forms in which an argument appears in emitted code.
#[derive(Debug, Clone, Copy, PartialEq, Eq, Structural)]
pub enum ArgumentForm {
    /// Dart type and name, in the abstract class.
    Definition,
    /// Native ABI type, in a native signature.
    NativeType,
    /// Dart-side ABI type, in a Dart signature.
    DartType,
    /// Dart-side ABI type and name, in a trampoline's parameter list.
    Parameter,
    /// Name of the lifted value, in the call of the method.
    CallName,
}

/// Text of the argument at position `index` in the given form, with the
/// comma that follows it.
pub open spec fn argument_text(form: ArgumentForm, index: nat, a: ArgumentInfoView) -> Seq<char> {
    match form {
        ArgumentForm::Definition => a.type_info.label + " "@ + a.name + ", "@,
        ArgumentForm::NativeType => native_label_of(a.type_info.ffi_type) + ", "@,
        ArgumentForm::DartType => dart_label_of(a.type_info.ffi_type) + ", "@,
        ArgumentForm::Parameter => dart_label_of(a.type_info.ffi_type) + " "@ + a.name + ", "@,
        ArgumentForm::CallName => "arg"@ + decimal(index) + ", "@,
    }
}

/// The texts of all arguments in the given form, in declaration order.
pub open spec fn argument_texts(form: ArgumentForm, arguments: Seq<ArgumentInfoView>) -> Seq<
    Seq<char>,
> {
    Seq::new(arguments.len(), |i: int| argument_text(form, i as nat, arguments[i]))
}

/// The arguments in the given form, one after the other in declaration
/// order.
pub open spec fn argument_list(form: ArgumentForm, arguments: Seq<ArgumentInfoView>) -> Seq<char> {
    argument_texts(form, arguments).flatten()
}

/// Writes the arguments in the given form, in declaration order.
pub fn emit_argument_list(form: ArgumentForm, arguments: &Vec<ArgumentInfo>) -> (text: String)
    ensures
        text@ == argument_list(form, crate::resolve::argument_info_views(arguments@)),
{
    let ghost views = crate::resolve::argument_info_views(arguments@);
    let ghost parts = argument_texts(form, views);
    let mut text = String::new();
    let n = arguments.len();
    let mut i: usize = 0;
    proof {
        lemma_flatten_bounds(parts);
    }
    while i < n
        invariant
            0 <= i <= n,
            n == arguments@.len(),
            views == crate::resolve::argument_info_views(arguments@),
            parts == argument_texts(form, views),
            text@ == parts.take(i as int).flatten(),
        decreases n - i,
    {
        let a = &arguments[i];
        assert(views[i as int] == a@);
        let piece = match form {
            ArgumentForm::Definition => join4(
                a.type_info.label.as_str(),
                " ",
                a.name.as_str(),
                ", ",
            ),
            ArgumentForm::NativeType => {
                let label = a.type_info.ffi_type.native_label();
                join2(label.as_str(), ", ")
            },
            ArgumentForm::DartType => {
                let label = a.type_info.ffi_type.dart_label();
                join2(label.as_str(), ", ")
            },
            ArgumentForm::Parameter => {
                let label = a.type_info.ffi_type.dart_label();
                join4(label.as_str(), " ", a.name.as_str(), ", ")
            },
            ArgumentForm::CallName => {
                let index = decimal_string(i as u64);
                join3("arg", index.as_str(), ", ")
            },
        };
        assert(piece@ == parts[i as int]);
        text.append(piece.as_str());
        proof {
            lemma_flatten_step(parts, i as int);
        }
        i += 1;
    }
    text
}

/// Return type of a method in the abstract class: async methods return a
/// future of their value.
pub open spec fn definition_return(m: MethodInfoView) -> Seq<char> {
    match (m.completion, m.return_type) {
        (Some(_), Some(t)) => "Future<"@ + t.label + ">"@,
        (Some(_), None) => "Future<void>"@,
        (None, Some(t)) => t.label,
        (None, None) => "void"@,
    }
}

/// The declaration of one method in the abstract class.
pub open spec fn method_definition(m: MethodInfoView) -> Seq<LineView> {
    seq![line(0, method_definition_text(m))]
}

/// Writes the declaration of one method of the abstract class.
pub fn emit_method_definition_text(m: &MethodInfo) -> (text: String)
    ensures
        text@ == method_definition_text(m@),
{
    let ret = match (&m.completion, &m.return_type) {
        (Some(_), Some(t)) => join3("Future<", t.label.as_str(), ">"),
        (Some(_), None) => String::from_str("Future<void>"),
        (None, Some(t)) => t.label.clone(),
        (None, None) => String::from_str("void"),
    };
    let arguments = emit_argument_list(ArgumentForm::Definition, &m.arguments);
    join6(ret.as_str(), " ", m.name.as_str(), "(", arguments.as_str(), ");")
}

/// Emits the declaration of one method of the abstract class.
pub fn emit_method_definition(m: &MethodInfo) -> (code: Code)
    ensures
        code@ == method_definition(m@),
{
    let mut code = Code::new();
    code.push_line(0, emit_method_definition_text(m));
    assert(code@ =~= method_definition(m@));
    code
}

/// Name of the native function type of the method at position `index`.
pub open spec fn method_type_name(callback_name: Seq<char>, index: nat) -> Seq<char> {
    "UniffiCallbackInterface"@ + callback_name + "Method"@ + decimal(index)
}

fn emit_method_type_name(callback_name: &str, index: usize) -> (name: String)
    ensures
        name@ == method_type_name(callback_name@, index as nat),
{
    let digits = decimal_string(index as u64);
    join4("UniffiCallbackInterface", callback_name, "Method", digits.as_str())
}

/// Type of the pointer to a completion callback.
pub open spec fn completion_pointer(c: CompletionInfoView) -> Seq<char> {
    "Pointer<NativeFunction<"@ + c.native_name + ">>"@
}

/// Native label of a return type; `Void` where there is none.
pub open spec fn return_native_label(m: MethodInfoView) -> Seq<char> {
    match m.return_type {
        Some(t) => native_label_of(t.ffi_type),
        None => "Void"@,
    }
}

fn emit_return_native_label(m: &MethodInfo) -> (label: String)
    ensures
        label@ == return_native_label(m@),
{
    match &m.return_type {
        Some(t) => t.ffi_type.native_label(),
        None => String::from_str("Void"),
    }
}

/// The native and the Dart function type of the method at position `index`.
/// Parameters come in ABI order: the handle of the object, the arguments in
/// declaration order, then the out-parameters and the status.
pub open spec fn method_signature(callback_name: Seq<char>, index: nat, m: MethodInfoView) -> Seq<
    LineView,
> {
    let name = method_type_name(callback_name, index);
    match m.completion {
        Some(c) => seq![
            line(
                0,
                "typedef "@ + name + " = Void Function(Uint64, "@ + argument_list(
                    ArgumentForm::NativeType,
                    m.arguments,
                ) + completion_pointer(c) + ", Uint64, Pointer<UniffiForeignFuture>);"@,
            ),
            line(
                0,
                "typedef "@ + name + "Dart = void Function(int, "@ + argument_list(
                    ArgumentForm::DartType,
                    m.arguments,
                ) + completion_pointer(c) + ", int, Pointer<UniffiForeignFuture>);"@,
            ),
        ],
        None => seq![
            line(
                0,
                "typedef "@ + name + " = Void Function(Uint64, "@ + argument_list(
                    ArgumentForm::NativeType,
                    m.arguments,
                ) + "Pointer<"@ + return_native_label(m) + ">, Pointer<RustCallStatus>);"@,
            ),
            line(
                0,
                "typedef "@ + name + "Dart = void Function(int, "@ + argument_list(
                    ArgumentForm::DartType,
                    m.arguments,
                ) + "Pointer<"@ + return_native_label(m) + ">, Pointer<RustCallStatus>);"@,
            ),
        ],
    }
}

/// The function types of the two lifecycle slots, `free` and `clone`.
pub open spec fn lifecycle_signatures(callback_name: Seq<char>) -> Seq<LineView> {
    seq![
        line(
            0,
            "typedef UniffiCallbackInterface"@ + callback_name + "Free = Void Function(Uint64);"@,
        ),
        line(
            0,
            "typedef UniffiCallbackInterface"@ + callback_name + "FreeDart = void Function(int);"@,
        ),
        line(
            0,
            "typedef UniffiCallbackInterface"@ + callback_name
                + "Clone = Uint64 Function(Uint64);"@,
        ),
        line(
            0,
            "typedef UniffiCallbackInterface"@ + callback_name + "CloneDart = int Function(int);"@,
        ),
    ]
}

/// The signatures of all methods, block by block in declaration order.
pub open spec fn method_signature_blocks(callback_name: Seq<char>, methods: Seq<MethodInfoView>)
    -> Seq<Seq<LineView>> {
    Seq::new(methods.len(), |i: int| method_signature(callback_name, i as nat, methods[i]))
}

/// The function types of a callback interface: two per method in declaration
/// order, then those of the lifecycle slots.
pub open spec fn methods_signatures(callback_name: Seq<char>, methods: Seq<MethodInfoView>) -> Seq<
    LineView,
> {
    method_signature_blocks(callback_name, methods).flatten() + lifecycle_signatures(
        callback_name,
    )
}

/// Emits the function types of one method.
pub fn emit_method_signature(callback_name: &str, index: usize, m: &MethodInfo) -> (code: Code)
    ensures
        code@ == method_signature(callback_name@, index as nat, m@),
{
    let name = emit_method_type_name(callback_name, index);
    let native_arguments = emit_argument_list(ArgumentForm::NativeType, &m.arguments);
    let dart_arguments = emit_argument_list(ArgumentForm::DartType, &m.arguments);
    let mut code = Code::new();
    match &m.completion {
        Some(c) => {
            let pointer = join3("Pointer<NativeFunction<", c.native_name.as_str(), ">>");
            code.push_line(
                0,
                join6(
                    "typedef ",
                    name.as_str(),
                    " = Void Function(Uint64, ",
                    native_arguments.as_str(),
                    pointer.as_str(),
                    ", Uint64, Pointer<UniffiForeignFuture>);",
                ),
            );
            code.push_line(
                0,
                join6(
                    "typedef ",
                    name.as_str(),
                    "Dart = void Function(int, ",
                    dart_arguments.as_str(),
                    pointer.as_str(),
                    ", int, Pointer<UniffiForeignFuture>);",
                ),
            );
        },
        None => {
            let ret = emit_return_native_label(m);
            code.push_line(
                0,
                join7(
                    "typedef ",
                    name.as_str(),
                    " = Void Function(Uint64, ",
                    native_arguments.as_str(),
                    "Pointer<",
                    ret.as_str(),
                    ">, Pointer<RustCallStatus>);",
                ),
            );
            code.push_line(
                0,
                join7(
                    "typedef ",
                    name.as_str(),
                    "Dart = void Function(int, ",
                    dart_arguments.as_str(),
                    "Pointer<",
                    ret.as_str(),
                    ">, Pointer<RustCallStatus>);",
                ),
            );
        },
    }
    assert(code@ =~= method_signature(callback_name@, index as nat, m@));
    code
}

/// Emits the function types of a callback interface.
pub fn emit_methods_signatures(callback_name: &str, methods: &Vec<MethodInfo>) -> (code: Code)
    ensures
        code@ == methods_signatures(callback_name@, method_info_views(methods@)),
{
    let ghost views = method_info_views(methods@);
    let ghost blocks = method_signature_blocks(callback_name@, views);
    let mut code = Code::new();
    let n = methods.len();
    let mut i: usize = 0;
    proof {
        lemma_flatten_bounds(blocks);
    }
    while i < n
        invariant
            0 <= i <= n,
            n == methods@.len(),
            views == method_info_views(methods@),
            blocks == method_signature_blocks(callback_name@, views),
            code@ == blocks.take(i as int).flatten(),
        decreases n - i,
    {
        let m = &methods[i];
        assert(views[i as int] == m@);
        let block = emit_method_signature(callback_name, i, m);
        assert(block@ == blocks[i as int]);
        code.append(block);
        proof {
            lemma_flatten_step(blocks, i as int);
        }
        i += 1;
    }
    let ghost body = code@;
    code.push_line(
        0,
        join3("typedef UniffiCallbackInterface", callback_name, "Free = Void Function(Uint64);"),
    );
    code.push_line(
        0,
        join3("typedef UniffiCallbackInterface", callback_name, "FreeDart = void Function(int);"),
    );
    code.push_line(
        0,
        join3("typedef UniffiCallbackInterface", callback_name, "Clone = Uint64 Function(Uint64);"),
    );
    code.push_line(
        0,
        join3("typedef UniffiCallbackInterface", callback_name, "CloneDart = int Function(int);"),
    );
    assert(code@ =~= body + lifecycle_signatures(callback_name@));
    code
}

/// Number of slots that every vtable starts with: `free` and `clone`.
pub open spec fn fixed_slots() -> nat {
    2
}

/// The vtable slot of the method at position `index`.
pub open spec fn method_slot(callback_name: Seq<char>, index: nat, m: MethodInfoView) -> LineView {
    line(
        1,
        "external Pointer<NativeFunction<"@ + method_type_name(callback_name, index) + ">> "@
            + m.name + ";"@,
    )
}

/// The slots of a vtable, in the order that native code expects: `free`,
/// `clone`, then one slot per method in declaration order.
pub open spec fn vtable_slots(callback_name: Seq<char>, methods: Seq<MethodInfoView>) -> Seq<
    LineView,
> {
    seq![
        line(
            1,
            "external Pointer<NativeFunction<UniffiCallbackInterface"@ + callback_name
                + "Free>> uniffiFree;"@,
        ),
        line(
            1,
            "external Pointer<NativeFunction<UniffiCallbackInterface"@ + callback_name
                + "Clone>> uniffiClone;"@,
        ),
    ] + Seq::new(methods.len(), |i: int| method_slot(callback_name, i as nat, methods[i]))
}

/// The vtable struct of a callback interface.
pub open spec fn vtable_interface(callback_name: Seq<char>, methods: Seq<MethodInfoView>) -> Seq<
    LineView,
> {
    seq![
        line(
            0,
            "final class UniffiVTableCallbackInterface"@ + callback_name + " extends Struct {"@,
        ),
    ] + vtable_slots(callback_name, methods) + seq![line(0, "}"@)]
}

/// Emits the vtable struct of a callback interface: the two fixed slots,
/// then one slot per method in declaration order.
pub fn emit_vtable_interface(callback_name: &str, methods: &Vec<MethodInfo>) -> (code: Code)
    ensures
        code@ == vtable_interface(callback_name@, method_info_views(methods@)),
        code@.len() == methods@.len() + fixed_slots() + 2,
        forall|i: int|
            0 <= i < methods@.len() ==> code@[1 + fixed_slots() + i] == method_slot(
                callback_name@,
                i as nat,
                #[trigger] methods@[i]@,
            ),
{
    let ghost views = method_info_views(methods@);
    let ghost slots = Seq::new(
        views.len(),
        |i: int| method_slot(callback_name@, i as nat, views[i]),
    );
    let mut code = Code::new();
    code.push_line(
        0,
        join3("final class UniffiVTableCallbackInterface", callback_name, " extends Struct {"),
    );
    code.push_line(
        1,
        join3(
            "external Pointer<NativeFunction<UniffiCallbackInterface",
            callback_name,
            "Free>> uniffiFree;",
        ),
    );
    code.push_line(
        1,
        join3(
            "external Pointer<NativeFunction<UniffiCallbackInterface",
            callback_name,
            "Clone>> uniffiClone;",
        ),
    );
    let ghost head = code@;
    let n = methods.len();
    let mut i: usize = 0;
    assert(code@ =~= head + slots.take(0));
    while i < n
        invariant
            0 <= i <= n,
            n == methods@.len(),
            views == method_info_views(methods@),
            slots == Seq::new(views.len(), |i: int| method_slot(callback_name@, i as nat, views[i])),
            code@ == head + slots.take(i as int),
        decreases n - i,
    {
        let m = &methods[i];
        assert(views[i as int] == m@);
        let slot_type = emit_method_type_name(callback_name, i);
        code.push_line(
            1,
            join5(
                "external Pointer<NativeFunction<",
                slot_type.as_str(),
                ">> ",
                m.name.as_str(),
                ";",
            ),
        );
        assert(code@ =~= head + slots.take(i + 1));
        i += 1;
    }
    code.push_line(0, String::from_str("}"));
    assert(slots.take(n as int) =~= slots);
    assert(code@ =~= vtable_interface(callback_name@, views));
    assert forall|i: int| 0 <= i < methods@.len() implies code@[1 + fixed_slots() + i]
        == method_slot(callback_name@, i as nat, #[trigger] methods@[i]@) by {
        assert(views[i] == methods@[i]@);
        assert(slots[i] == method_slot(callback_name@, i as nat, views[i]));
    }
    code
}

/// Opening of an async trampoline: its name and the handle of the object.
pub open spec fn async_head(name: Seq<char>) -> Seq<LineView> {
    seq![
        line(0, "void "@ + name + "("@),
        line(1, "int uniffiHandle,"@),
    ]
}

fn emit_async_head(code: &mut Code, name: &str)
    ensures
        final(code)@ == old(code)@ + async_head(name@),
{
    code.push_line(0, join3("void ", name, "("));
    code.push_line(1, String::from_str("int uniffiHandle,"));
    assert(code@ =~= old(code)@ + async_head(name@));
}

/// The parameters of an async trampoline that follow the arguments: the
/// completion callback, its data, and the slot for the handle of the call.
pub open spec fn async_out_parameters(pointer: Seq<char>) -> Seq<LineView> {
    seq![
        line(1, pointer + " uniffiFutureCallback,"@),
        line(1, "int uniffiCallbackData,"@),
        line(1, "Pointer<UniffiForeignFuture> outReturn,"@),
        line(0, ") {"@),
    ]
}

fn emit_async_out_parameters(code: &mut Code, pointer: &str)
    ensures
        final(code)@ == old(code)@ + async_out_parameters(pointer@),
{
    code.push_line(1, join2(pointer, " uniffiFutureCallback,"));
    code.push_line(1, String::from_str("int uniffiCallbackData,"));
    code.push_line(1, String::from_str("Pointer<UniffiForeignFuture> outReturn,"));
    code.push_line(0, String::from_str(") {"));
    assert(code@ =~= old(code)@ + async_out_parameters(pointer@));
}

/// Registers the state of the call under a new handle, hands the handle and
/// the free function back to the caller, and opens the unit of work that
/// runs the method without blocking the caller. All that can fail in the
/// unit of work stands inside the failure wrapper that opens here.
pub open spec fn async_registration(native_name: Seq<char>, struct_class: Seq<char>) -> Seq<LineView> {
    seq![
        line(1, "final callback = uniffiFutureCallback.asFunction<"@ + native_name + "Dart>();"@),
        line(1, "final state = _UniffiForeignFutureState();"@),
        line(1, "final handle = _uniffiForeignFutureHandleMap.insert(state);"@),
        line(1, "outReturn.ref.handle = handle;"@),
        line(1, "outReturn.ref.free = _uniffiForeignFutureFreePointer;"@),
        line(0, Seq::<char>::empty()),
        line(1, "() async {"@),
        line(2, "final resultStructPtr = calloc<"@ + struct_class + ">();"@),
        line(2, "try {"@),
        line(3, "try {"@),
    ]
}

fn emit_async_registration(code: &mut Code, native_name: &str, struct_class: &str)
    ensures
        final(code)@ == old(code)@ + async_registration(native_name@, struct_class@),
{
    code.push_line(1, join3("final callback = uniffiFutureCallback.asFunction<", native_name, "Dart>();"));
    code.push_line(1, String::from_str("final state = _UniffiForeignFutureState();"));
    code.push_line(1, String::from_str("final handle = _uniffiForeignFutureHandleMap.insert(state);"));
    code.push_line(1, String::from_str("outReturn.ref.handle = handle;"));
    code.push_line(1, String::from_str("outReturn.ref.free = _uniffiForeignFutureFreePointer;"));
    code.push_blank();
    code.push_line(1, String::from_str("() async {"));
    code.push_line(2, join3("final resultStructPtr = calloc<", struct_class, ">();"));
    code.push_line(2, String::from_str("try {"));
    code.push_line(3, String::from_str("try {"));
    assert(code@ =~= old(code)@ + async_registration(native_name@, struct_class@));
}

/// Settles the call once its result struct is complete: takes the state out
/// of the handle map, returns without a completion when the call was
/// settled before, and otherwise marks it settled and fires the completion
/// callback. Test, mark and callback are one step of the event loop.
pub open spec fn settlement() -> Seq<LineView> {
    seq![
        line(3, "final removedState = _uniffiForeignFutureHandleMap.maybeRemove(handle);"@),
        line(3, "final effectiveState = removedState ?? state;"@),
        line(3, "if (effectiveState.cancelled) {"@),
        line(4, "return;"@),
        line(3, "}"@),
        line(3, "effectiveState.cancelled = true;"@),
        line(3, "callback(uniffiCallbackData, resultStructPtr.ref);"@),
    ]
}

fn emit_settlement(code: &mut Code)
    ensures
        final(code)@ == old(code)@ + settlement(),
{
    code.push_line(3, String::from_str("final removedState = _uniffiForeignFutureHandleMap.maybeRemove(handle);"));
    code.push_line(3, String::from_str("final effectiveState = removedState ?? state;"));
    code.push_line(3, String::from_str("if (effectiveState.cancelled) {"));
    code.push_line(4, String::from_str("return;"));
    code.push_line(3, String::from_str("}"));
    code.push_line(3, String::from_str("effectiveState.cancelled = true;"));
    code.push_line(3, String::from_str("callback(uniffiCallbackData, resultStructPtr.ref);"));
    assert(code@ =~= old(code)@ + settlement());
}

/// The branch for the error that the method declares: the error is lowered
/// with the codec of its type and travels with the status of an expected
/// error. Where lowering it fails, the call fails unexpectedly instead.
pub open spec fn typed_failure(error_label: Seq<char>, error_codec: Seq<char>) -> Seq<LineView> {
    seq![
        line(3, "} on "@ + error_label + " catch (e) {"@),
        line(4, "try {"@),
        line(5, "resultStructPtr.ref.callStatus.errorBuf = "@ + error_codec + ".lower(e);"@),
        line(5, "resultStructPtr.ref.callStatus.code = CALL_ERROR;"@),
        line(4, "} catch (failure) {"@),
        line(5, "resultStructPtr.ref.callStatus.code = CALL_UNEXPECTED_ERROR;"@),
        line(5, "resultStructPtr.ref.callStatus.errorBuf = FfiConverterString.lower(failure.toString());"@),
        line(4, "}"@),
    ]
}

fn emit_typed_failure(code: &mut Code, error_label: &str, error_codec: &str)
    ensures
        final(code)@ == old(code)@ + typed_failure(error_label@, error_codec@),
{
    code.push_line(3, join3("} on ", error_label, " catch (e) {"));
    code.push_line(4, String::from_str("try {"));
    code.push_line(5, join3("resultStructPtr.ref.callStatus.errorBuf = ", error_codec, ".lower(e);"));
    code.push_line(5, String::from_str("resultStructPtr.ref.callStatus.code = CALL_ERROR;"));
    code.push_line(4, String::from_str("} catch (failure) {"));
    code.push_line(5, String::from_str("resultStructPtr.ref.callStatus.code = CALL_UNEXPECTED_ERROR;"));
    code.push_line(5, String::from_str("resultStructPtr.ref.callStatus.errorBuf = FfiConverterString.lower(failure.toString());"));
    code.push_line(4, String::from_str("}"));
    assert(code@ =~= old(code)@ + typed_failure(error_label@, error_codec@));
}

/// The branch for every other failure, of the lookup, the lifts, the method
/// or the lowering of its value: the status of an unexpected error and the
/// text of the failure.
pub open spec fn unexpected_failure() -> Seq<LineView> {
    seq![
        line(3, "} catch (e) {"@),
        line(4, "resultStructPtr.ref.callStatus.code = CALL_UNEXPECTED_ERROR;"@),
        line(4, "resultStructPtr.ref.callStatus.errorBuf = FfiConverterString.lower(e.toString());"@),
        line(3, "}"@),
    ]
}

fn emit_unexpected_failure(code: &mut Code)
    ensures
        final(code)@ == old(code)@ + unexpected_failure(),
{
    code.push_line(3, String::from_str("} catch (e) {"));
    code.push_line(4, String::from_str("resultStructPtr.ref.callStatus.code = CALL_UNEXPECTED_ERROR;"));
    code.push_line(4, String::from_str("resultStructPtr.ref.callStatus.errorBuf = FfiConverterString.lower(e.toString());"));
    code.push_line(3, String::from_str("}"));
    assert(code@ =~= old(code)@ + unexpected_failure());
}

/// Frees the result struct on every path and closes the trampoline.
pub open spec fn async_closing() -> Seq<LineView> {
    seq![
        line(2, "} finally {"@),
        line(3, "calloc.free(resultStructPtr);"@),
        line(2, "}"@),
        line(1, "}();"@),
        line(0, "}"@),
        line(0, Seq::<char>::empty()),
    ]
}

fn emit_async_closing(code: &mut Code)
    ensures
        final(code)@ == old(code)@ + async_closing(),
{
    code.push_line(2, String::from_str("} finally {"));
    code.push_line(3, String::from_str("calloc.free(resultStructPtr);"));
    code.push_line(2, String::from_str("}"));
    code.push_line(1, String::from_str("}();"));
    code.push_line(0, String::from_str("}"));
    code.push_blank();
    assert(code@ =~= old(code)@ + async_closing());
}

/// The native pointer to a trampoline, which fills the method's vtable slot.
pub open spec fn trampoline_pointer(method_type: Seq<char>, name: Seq<char>) -> Seq<LineView> {
    seq![
        line(0, "final Pointer<NativeFunction<"@ + method_type + ">> "@ + name + "Pointer ="@),
        line(1, "Pointer.fromFunction<"@ + method_type + ">("@ + name + ");"@),
        line(0, Seq::<char>::empty()),
    ]
}

fn emit_trampoline_pointer(code: &mut Code, method_type: &str, name: &str)
    ensures
        final(code)@ == old(code)@ + trampoline_pointer(method_type@, name@),
{
    code.push_line(0, join5("final Pointer<NativeFunction<", method_type, ">> ", name, "Pointer ="));
    code.push_line(1, join5("Pointer.fromFunction<", method_type, ">(", name, ");"));
    code.push_blank();
    assert(code@ =~= old(code)@ + trampoline_pointer(method_type@, name@));
}

/// Opening of a sync trampoline. Its parameters come in ABI order: the handle
/// of the object, the arguments, the out slot, the status. The body resolves
/// the object from its handle inside the failure wrapper.
pub open spec fn sync_head(name: Seq<char>, parameters: Seq<char>, out_label: Seq<char>, codec: Seq<char>) -> Seq<LineView> {
    seq![
        line(0, "void "@ + name + "(int uniffiHandle, "@ + parameters + "Pointer<"@ + out_label + "> outReturn, Pointer<RustCallStatus> callStatus) {"@),
        line(1, "final status = callStatus.ref;"@),
        line(1, "try {"@),
        line(2, "final obj = "@ + codec + "._handleMap.get(uniffiHandle);"@),
    ]
}

fn emit_sync_head(code: &mut Code, name: &str, parameters: &str, out_label: &str, codec: &str)
    ensures
        final(code)@ == old(code)@ + sync_head(name@, parameters@, out_label@, codec@),
{
    code.push_line(0, join7("void ", name, "(int uniffiHandle, ", parameters, "Pointer<", out_label, "> outReturn, Pointer<RustCallStatus> callStatus) {"));
    code.push_line(1, String::from_str("final status = callStatus.ref;"));
    code.push_line(1, String::from_str("try {"));
    code.push_line(2, join3("final obj = ", codec, "._handleMap.get(uniffiHandle);"));
    assert(code@ =~= old(code)@ + sync_head(name@, parameters@, out_label@, codec@));
}

/// The failure wrapper of a sync trampoline: whatever the method raised
/// becomes the status of an unexpected error with the text of the failure.
pub open spec fn sync_tail() -> Seq<LineView> {
    seq![
        line(1, "} catch (e) {"@),
        line(2, "status.code = CALL_UNEXPECTED_ERROR;"@),
        line(2, "status.errorBuf = FfiConverterString.lower(e.toString());"@),
        line(1, "}"@),
        line(0, "}"@),
        line(0, Seq::<char>::empty()),
    ]
}

fn emit_sync_tail(code: &mut Code)
    ensures
        final(code)@ == old(code)@ + sync_tail(),
{
    code.push_line(1, String::from_str("} catch (e) {"));
    code.push_line(2, String::from_str("status.code = CALL_UNEXPECTED_ERROR;"));
    code.push_line(2, String::from_str("status.errorBuf = FfiConverterString.lower(e.toString());"));
    code.push_line(1, String::from_str("}"));
    code.push_line(0, String::from_str("}"));
    code.push_blank();
    assert(code@ =~= old(code)@ + sync_tail());
}

/// The function behind the `free` slot: it removes the handle from the handle
/// map. Removing a handle twice is no error.
pub open spec fn free_callback(callback_name: Seq<char>, prefix: Seq<char>, codec: Seq<char>) -> Seq<LineView> {
    seq![
        line(0, "void "@ + prefix + "FreeCallback(int handle) {"@),
        line(1, "try {"@),
        line(2, codec + "._handleMap.remove(handle);"@),
        line(1, "} catch (e) {"@),
        line(1, "}"@),
        line(0, "}"@),
        line(0, Seq::<char>::empty()),
        line(0, "final Pointer<NativeFunction<UniffiCallbackInterface"@ + callback_name + "Free>> "@ + prefix + "FreePointer ="@),
        line(1, "Pointer.fromFunction<UniffiCallbackInterface"@ + callback_name + "Free>("@ + prefix + "FreeCallback);"@),
        line(0, Seq::<char>::empty()),
    ]
}

fn emit_free_callback(code: &mut Code, callback_name: &str, prefix: &str, codec: &str)
    ensures
        final(code)@ == old(code)@ + free_callback(callback_name@, prefix@, codec@),
{
    code.push_line(0, join3("void ", prefix, "FreeCallback(int handle) {"));
    code.push_line(1, String::from_str("try {"));
    code.push_line(2, join2(codec, "._handleMap.remove(handle);"));
    code.push_line(1, String::from_str("} catch (e) {"));
    code.push_line(1, String::from_str("}"));
    code.push_line(0, String::from_str("}"));
    code.push_blank();
    code.push_line(0, join5("final Pointer<NativeFunction<UniffiCallbackInterface", callback_name, "Free>> ", prefix, "FreePointer ="));
    code.push_line(1, join5("Pointer.fromFunction<UniffiCallbackInterface", callback_name, "Free>(", prefix, "FreeCallback);"));
    code.push_blank();
    assert(code@ =~= old(code)@ + free_callback(callback_name@, prefix@, codec@));
}

/// The function behind the `clone` slot: it registers the object under a
/// second handle, or returns the handle 0 when the first one is unknown.
pub open spec fn clone_callback(callback_name: Seq<char>, prefix: Seq<char>, codec: Seq<char>) -> Seq<LineView> {
    seq![
        line(0, "int "@ + prefix + "CloneCallback(int handle) {"@),
        line(1, "try {"@),
        line(2, "final obj = "@ + codec + "._handleMap.get(handle);"@),
        line(2, "final newHandle = "@ + codec + "._handleMap.insert(obj);"@),
        line(2, "return newHandle;"@),
        line(1, "} catch (e) {"@),
        line(2, "return 0;"@),
        line(1, "}"@),
        line(0, "}"@),
        line(0, Seq::<char>::empty()),
        line(0, "final Pointer<NativeFunction<UniffiCallbackInterface"@ + callback_name + "Clone>> "@ + prefix + "ClonePointer ="@),
        line(1, "Pointer.fromFunction<UniffiCallbackInterface"@ + callback_name + "Clone>("@ + prefix + "CloneCallback, 0);"@),
    ]
}

fn emit_clone_callback(code: &mut Code, callback_name: &str, prefix: &str, codec: &str)
    ensures
        final(code)@ == old(code)@ + clone_callback(callback_name@, prefix@, codec@),
{
    code.push_line(0, join3("int ", prefix, "CloneCallback(int handle) {"));
    code.push_line(1, String::from_str("try {"));
    code.push_line(2, join3("final obj = ", codec, "._handleMap.get(handle);"));
    code.push_line(2, join3("final newHandle = ", codec, "._handleMap.insert(obj);"));
    code.push_line(2, String::from_str("return newHandle;"));
    code.push_line(1, String::from_str("} catch (e) {"));
    code.push_line(2, String::from_str("return 0;"));
    code.push_line(1, String::from_str("}"));
    code.push_line(0, String::from_str("}"));
    code.push_blank();
    code.push_line(0, join5("final Pointer<NativeFunction<UniffiCallbackInterface", callback_name, "Clone>> ", prefix, "ClonePointer ="));
    code.push_line(1, join5("Pointer.fromFunction<UniffiCallbackInterface", callback_name, "Clone>(", prefix, "CloneCallback, 0);"));
    assert(code@ =~= old(code)@ + clone_callback(callback_name@, prefix@, codec@));
}
/// Name of the codec class of the callback interface whose class is `cls`:
/// the class that owns the handle map.
pub open spec fn handle_map_codec(cls: Seq<char>) -> Seq<char> {
    codec_of("CallbackInterface"@ + cls)
}

/// Name of the trampoline of a method.
pub open spec fn trampoline_name(prefix: Seq<char>, m: MethodInfoView) -> Seq<char> {
    prefix + m.class_name
}

/// The lines that lift the arguments from their ABI values, one line per
/// argument in declaration order.
pub open spec fn argument_lifts(depth: nat, arguments: Seq<ArgumentInfoView>) -> Seq<LineView> {
    Seq::new(
        arguments.len(),
        |i: int|
            line(
                depth,
                "final arg"@ + decimal(i as nat) + " = "@ + arguments[i].type_info.codec_name
                    + ".lift("@ + arguments[i].name + ");"@,
            ),
    )
}

fn emit_argument_lifts(code: &mut Code, depth: usize, arguments: &Vec<ArgumentInfo>)
    ensures
        final(code)@ == old(code)@ + argument_lifts(
            depth as nat,
            crate::resolve::argument_info_views(arguments@),
        ),
{
    let ghost views = crate::resolve::argument_info_views(arguments@);
    let ghost lifts = argument_lifts(depth as nat, views);
    let n = arguments.len();
    let mut i: usize = 0;
    assert(code@ =~= old(code)@ + lifts.take(0));
    while i < n
        invariant
            0 <= i <= n,
            n == arguments@.len(),
            views == crate::resolve::argument_info_views(arguments@),
            lifts == argument_lifts(depth as nat, views),
            code@ == old(code)@ + lifts.take(i as int),
        decreases n - i,
    {
        let a = &arguments[i];
        assert(views[i as int] == a@);
        let index = decimal_string(i as u64);
        code.push_line(
            depth,
            join7(
                "final arg",
                index.as_str(),
                " = ",
                a.type_info.codec_name.as_str(),
                ".lift(",
                a.name.as_str(),
                ");",
            ),
        );
        assert(code@ =~= old(code)@ + lifts.take(i + 1));
        i += 1;
    }
    assert(lifts.take(n as int) =~= lifts);
}

/// The parameters of an async trampoline that carry the arguments, one line
/// per argument in declaration order.
pub open spec fn async_parameters(arguments: Seq<ArgumentInfoView>) -> Seq<LineView> {
    Seq::new(
        arguments.len(),
        |i: int|
            line(1, dart_label_of(arguments[i].type_info.ffi_type) + " "@ + arguments[i].name + ","@),
    )
}

fn emit_async_parameters(code: &mut Code, arguments: &Vec<ArgumentInfo>)
    ensures
        final(code)@ == old(code)@ + async_parameters(
            crate::resolve::argument_info_views(arguments@),
        ),
{
    let ghost views = crate::resolve::argument_info_views(arguments@);
    let ghost parameters = async_parameters(views);
    let n = arguments.len();
    let mut i: usize = 0;
    assert(code@ =~= old(code)@ + parameters.take(0));
    while i < n
        invariant
            0 <= i <= n,
            n == arguments@.len(),
            views == crate::resolve::argument_info_views(arguments@),
            parameters == async_parameters(views),
            code@ == old(code)@ + parameters.take(i as int),
        decreases n - i,
    {
        let a = &arguments[i];
        assert(views[i as int] == a@);
        let label = a.type_info.ffi_type.dart_label();
        code.push_line(1, join4(label.as_str(), " ", a.name.as_str(), ","));
        assert(code@ =~= old(code)@ + parameters.take(i + 1));
        i += 1;
    }
    assert(parameters.take(n as int) =~= parameters);
}

/// The line that resolves the object of an async call from its handle.
pub open spec fn async_lookup(cls: Seq<char>) -> LineView {
    line(4, "final obj = "@ + handle_map_codec(cls) + "._handleMap.get(uniffiHandle);"@)
}

/// The call of an async method: the unit of work waits for the method's
/// future. A method without a return value yields nothing to keep.
pub open spec fn async_call(m: MethodInfoView) -> LineView {
    let arguments = argument_list(ArgumentForm::CallName, m.arguments);
    match m.return_type {
        Some(_) => line(4, "final result = await obj."@ + m.name + "("@ + arguments + ");"@),
        None => line(4, "await obj."@ + m.name + "("@ + arguments + ");"@),
    }
}

/// The line that lowers the value of an async method into the result struct.
/// A method without a return value has none: its struct carries the status
/// only.
pub open spec fn success_return(m: MethodInfoView) -> Seq<LineView> {
    match m.return_type {
        Some(t) => seq![
            line(4, "resultStructPtr.ref.returnValue = "@ + t.codec_name + ".lower(result);"@),
        ],
        None => Seq::empty(),
    }
}

/// The line that sets the success status, once the value is lowered.
pub open spec fn success_status() -> LineView {
    line(4, "resultStructPtr.ref.callStatus.code = CALL_SUCCESS;"@)
}

/// The work of an async call, all of it inside the failure wrapper: the
/// object is resolved from its handle, the arguments are lifted, the method
/// runs, and its value is lowered into the result struct. Nothing here
/// settles the call, so a failure of any of these lines still completes it.
pub open spec fn async_work(cls: Seq<char>, m: MethodInfoView) -> Seq<LineView> {
    seq![async_lookup(cls)] + argument_lifts(4, m.arguments) + seq![async_call(m)]
        + success_return(m) + seq![success_status()]
}

/// The failure branches of an async call: the branch for the declared error,
/// where the method declares one, then the branch for every other failure.
pub open spec fn async_failures(m: MethodInfoView) -> Seq<LineView> {
    match m.throws {
        Some(e) => typed_failure(e.label, e.codec_name) + unexpected_failure(),
        None => unexpected_failure(),
    }
}

/// The lines of an async trampoline up to the work: the parameters in ABI
/// order and the registration of the call.
pub open spec fn async_opening(prefix: Seq<char>, m: MethodInfoView, c: CompletionInfoView) -> Seq<
    LineView,
> {
    async_head(trampoline_name(prefix, m)) + async_parameters(m.arguments) + async_out_parameters(
        completion_pointer(c),
    ) + async_registration(c.native_name, c.structure.class_name)
}

/// The trampoline of an async method. It returns to the native caller as
/// soon as the call is registered. The method runs in a unit of work of its
/// own: the outcome, value or failure, is written into the result struct
/// first, and then the call is settled and the completion callback fires,
/// unless the call was freed before.
pub open spec fn async_trampoline(
    callback_name: Seq<char>,
    cls: Seq<char>,
    prefix: Seq<char>,
    index: nat,
    m: MethodInfoView,
    c: CompletionInfoView,
) -> Seq<LineView> {
    async_opening(prefix, m, c) + async_work(cls, m) + async_failures(m) + settlement()
        + async_closing() + trampoline_pointer(
        method_type_name(callback_name, index),
        trampoline_name(prefix, m),
    )
}

/// Position of the first line of the work in an async trampoline.
pub open spec fn work_start(m: MethodInfoView) -> int {
    (m.arguments.len() + 16) as int
}

/// Position of the first line of the settlement in an async trampoline.
pub open spec fn settlement_start(cls: Seq<char>, m: MethodInfoView) -> int {
    (work_start(m) + async_work(cls, m).len() + async_failures(m).len()) as int
}

/// Where the lines of an async trampoline stand.
///
/// The lookup of the object and the lifts of the arguments stand inside the
/// failure wrapper. The value is lowered before the settlement, and the
/// branch of a declared error lowers it with the codec of its type. In the
/// settlement the mark follows the test directly and the callback follows
/// the mark directly, with no line between that could suspend or fail.
pub proof fn lemma_async_trampoline_order(
    callback_name: Seq<char>,
    cls: Seq<char>,
    prefix: Seq<char>,
    index: nat,
    m: MethodInfoView,
    c: CompletionInfoView,
)
    ensures
        ({
            let t = async_trampoline(callback_name, cls, prefix, index, m, c);
            let w = work_start(m);
            let s = settlement_start(cls, m);
            &&& 0 < w < s
            &&& s + 7 <= t.len()
            &&& t[w - 1] == line(3, "try {"@)
            &&& t[w] == async_lookup(cls)
            &&& forall|i: int|
                0 <= i < m.arguments.len() ==> t[w + 1 + i] == #[trigger] argument_lifts(
                    4,
                    m.arguments,
                )[i]
            &&& t[w + 1 + m.arguments.len()] == async_call(m)
            &&& (m.return_type matches Some(r) ==> t[w + 2 + m.arguments.len()] == line(
                4,
                "resultStructPtr.ref.returnValue = "@ + r.codec_name + ".lower(result);"@,
            ) && w + 2 + m.arguments.len() < s)
            &&& (m.throws matches Some(e) ==> t[w + async_work(cls, m).len()] == line(
                3,
                "} on "@ + e.label + " catch (e) {"@,
            ) && t[w + async_work(cls, m).len() + 2] == line(
                5,
                "resultStructPtr.ref.callStatus.errorBuf = "@ + e.codec_name + ".lower(e);"@,
            ) && t[w + async_work(cls, m).len() + 3] == line(
                5,
                "resultStructPtr.ref.callStatus.code = CALL_ERROR;"@,
            ))
            &&& t[s - 4] == line(3, "} catch (e) {"@)
            &&& t[s - 3] == line(4, "resultStructPtr.ref.callStatus.code = CALL_UNEXPECTED_ERROR;"@)
            &&& t[s + 2] == line(3, "if (effectiveState.cancelled) {"@)
            &&& t[s + 3] == line(4, "return;"@)
            &&& t[s + 5] == line(3, "effectiveState.cancelled = true;"@)
            &&& t[s + 6] == line(3, "callback(uniffiCallbackData, resultStructPtr.ref);"@)
        }),
{
    let opening = async_opening(prefix, m, c);
    let work = async_work(cls, m);
    let failures = async_failures(m);
    let t = async_trampoline(callback_name, cls, prefix, index, m, c);
    let w = work_start(m);
    let s = settlement_start(cls, m);
    let n = m.arguments.len() as int;
    assert(opening.len() == w);
    assert(opening[w - 1] == line(3, "try {"@));
    assert(work.len() >= 3 + n);
    assert(failures.len() >= 4);
    assert(forall|i: int| 0 <= i < w ==> t[i] == opening[i]);
    assert(forall|i: int| 0 <= i < work.len() ==> t[w + i] == work[i]);
    assert(forall|i: int| 0 <= i < failures.len() ==> t[w + work.len() + i] == failures[i]);
    assert(forall|i: int| 0 <= i < 7 ==> t[s + i] == settlement()[i]);
    assert(work[0] == async_lookup(cls));
    assert forall|i: int| 0 <= i < n implies t[w + 1 + i] == #[trigger] argument_lifts(
        4,
        m.arguments,
    )[i] by {
        assert(work[1 + i] == argument_lifts(4, m.arguments)[i]);
    }
    assert(work[1 + n] == async_call(m));
    match m.return_type {
        Some(r) => {
            assert(work[2 + n] == success_return(m)[0]);
        },
        None => {},
    }
    match m.throws {
        Some(e) => {
            assert(failures[0] == typed_failure(e.label, e.codec_name)[0]);
            assert(failures[2] == typed_failure(e.label, e.codec_name)[2]);
            assert(failures[3] == typed_failure(e.label, e.codec_name)[3]);
            assert(failures[failures.len() - 4] == unexpected_failure()[0]);
            assert(failures[failures.len() - 3] == unexpected_failure()[1]);
        },
        None => {
            assert(failures[failures.len() - 4] == unexpected_failure()[0]);
            assert(failures[failures.len() - 3] == unexpected_failure()[1]);
        },
    }
    assert(t[s - 4] == failures[failures.len() - 4]);
    assert(t[s - 3] == failures[failures.len() - 3]);
}

/// The call of a sync method: the value is lowered into the out slot and the
/// status is set to success.
pub open spec fn sync_call(m: MethodInfoView) -> Seq<LineView> {
    let arguments = argument_list(ArgumentForm::CallName, m.arguments);
    match m.return_type {
        Some(t) => seq![
            line(2, "final result = obj."@ + m.name + "("@ + arguments + ");"@),
            line(2, "outReturn.value = "@ + t.codec_name + ".lower(result);"@),
            line(2, "status.code = CALL_SUCCESS;"@),
        ],
        None => seq![
            line(2, "obj."@ + m.name + "("@ + arguments + ");"@),
            line(2, "status.code = CALL_SUCCESS;"@),
        ],
    }
}

/// The trampoline of a sync method.
pub open spec fn sync_trampoline(
    callback_name: Seq<char>,
    cls: Seq<char>,
    prefix: Seq<char>,
    index: nat,
    m: MethodInfoView,
) -> Seq<LineView> {
    let name = trampoline_name(prefix, m);
    sync_head(
        name,
        argument_list(ArgumentForm::Parameter, m.arguments),
        return_native_label(m),
        handle_map_codec(cls),
    ) + argument_lifts(2, m.arguments) + sync_call(m) + sync_tail() + trampoline_pointer(
        method_type_name(callback_name, index),
        name,
    )
}

/// The trampoline of the method at position `index`.
pub open spec fn trampoline(
    callback_name: Seq<char>,
    cls: Seq<char>,
    prefix: Seq<char>,
    index: nat,
    m: MethodInfoView,
) -> Seq<LineView> {
    match m.completion {
        Some(c) => async_trampoline(callback_name, cls, prefix, index, m, c),
        None => sync_trampoline(callback_name, cls, prefix, index, m),
    }
}

/// The trampolines of all methods, block by block in declaration order.
pub open spec fn trampoline_blocks(
    callback_name: Seq<char>,
    cls: Seq<char>,
    prefix: Seq<char>,
    methods: Seq<MethodInfoView>,
) -> Seq<Seq<LineView>> {
    Seq::new(methods.len(), |i: int| trampoline(callback_name, cls, prefix, i as nat, methods[i]))
}

/// The functions of a callback interface: one trampoline per method in
/// declaration order, then the functions behind the `free` and the `clone`
/// slot.
pub open spec fn callback_functions(
    callback_name: Seq<char>,
    cls: Seq<char>,
    prefix: Seq<char>,
    methods: Seq<MethodInfoView>,
) -> Seq<LineView> {
    trampoline_blocks(callback_name, cls, prefix, methods).flatten() + free_callback(
        callback_name,
        prefix,
        handle_map_codec(cls),
    ) + clone_callback(callback_name, prefix, handle_map_codec(cls))
}

/// The types that are requested after the trampolines of `methods`, when
/// `requested` were before: the trampoline of an async method with a return
/// value lowers the value with the codec of its type, so it requests that
/// type.
pub open spec fn requested_after(methods: Seq<MethodInfoView>, requested: Set<Seq<char>>) -> Set<
    Seq<char>,
>
    decreases methods.len(),
{
    if methods.len() == 0 {
        requested
    } else {
        let before = requested_after(methods.drop_last(), requested);
        match (methods.last().completion, methods.last().return_type) {
            (Some(_), Some(t)) => before.insert(t.canonical_name),
            _ => before,
        }
    }
}

/// Requests the return types of the async methods.
pub fn request_async_returns(methods: &Vec<MethodInfo>, registry: &mut Registry)
    ensures
        final(registry).requested() == requested_after(
            method_info_views(methods@),
            old(registry).requested(),
        ),
        final(registry)@ == old(registry)@,
{
    let ghost views = method_info_views(methods@);
    let n = methods.len();
    let mut i: usize = 0;
    assert(views.take(0) =~= Seq::<MethodInfoView>::empty());
    while i < n
        invariant
            0 <= i <= n,
            n == methods@.len(),
            views == method_info_views(methods@),
            registry.requested() == requested_after(
                views.take(i as int),
                old(registry).requested(),
            ),
            registry@ == old(registry)@,
        decreases n - i,
    {
        let m = &methods[i];
        assert(views[i as int] == m@);
        match (&m.completion, &m.return_type) {
            (Some(_), Some(t)) => {
                registry.request(t.canonical_name.as_str());
            },
            _ => {},
        }
        proof {
            assert(views.take(i + 1).drop_last() =~= views.take(i as int));
            assert(views.take(i + 1).last() == views[i as int]);
        }
        i += 1;
    }
    assert(views.take(n as int) =~= views);
}

/// Emits the trampoline of one method.
pub fn emit_trampoline(callback_name: &str, cls: &str, prefix: &str, index: usize, m: &MethodInfo)
    -> (code: Code)
    ensures
        code@ == trampoline(callback_name@, cls@, prefix@, index as nat, m@),
{
    let name = join2(prefix, m.class_name.as_str());
    let codec = join3("FfiConverter", "CallbackInterface", cls);
    assert(codec@ =~= handle_map_codec(cls@));
    let method_type = emit_method_type_name(callback_name, index);
    let call_names = emit_argument_list(ArgumentForm::CallName, &m.arguments);
    let mut code = Code::new();
    match &m.completion {
        Some(c) => {
            let pointer = join3("Pointer<NativeFunction<", c.native_name.as_str(), ">>");
            emit_async_head(&mut code, name.as_str());
            emit_async_parameters(&mut code, &m.arguments);
            emit_async_out_parameters(&mut code, pointer.as_str());
            emit_async_registration(
                &mut code,
                c.native_name.as_str(),
                c.structure.class_name.as_str(),
            );
            assert(code@ =~= async_opening(prefix@, m@, c@));
            let ghost opening = code@;
            code.push_line(
                4,
                join3("final obj = ", codec.as_str(), "._handleMap.get(uniffiHandle);"),
            );
            emit_argument_lifts(&mut code, 4, &m.arguments);
            match &m.return_type {
                Some(t) => {
                    code.push_line(
                        4,
                        join5(
                            "final result = await obj.",
                            m.name.as_str(),
                            "(",
                            call_names.as_str(),
                            ");",
                        ),
                    );
                    code.push_line(
                        4,
                        join3(
                            "resultStructPtr.ref.returnValue = ",
                            t.codec_name.as_str(),
                            ".lower(result);",
                        ),
                    );
                },
                None => {
                    code.push_line(
                        4,
                        join5("await obj.", m.name.as_str(), "(", call_names.as_str(), ");"),
                    );
                },
            }
            code.push_line(
                4,
                String::from_str("resultStructPtr.ref.callStatus.code = CALL_SUCCESS;"),
            );
            assert(code@ =~= opening + async_work(cls@, m@));
            let ghost worked = code@;
            match &m.throws {
                Some(e) => {
                    emit_typed_failure(&mut code, e.label.as_str(), e.codec_name.as_str());
                },
                None => {},
            }
            emit_unexpected_failure(&mut code);
            assert(code@ =~= worked + async_failures(m@));
            emit_settlement(&mut code);
            emit_async_closing(&mut code);
            emit_trampoline_pointer(&mut code, method_type.as_str(), name.as_str());
            assert(code@ =~= async_trampoline(
                callback_name@,
                cls@,
                prefix@,
                index as nat,
                m@,
                c@,
            ));
        },
        None => {
            let parameters = emit_argument_list(ArgumentForm::Parameter, &m.arguments);
            let out_label = emit_return_native_label(m);
            emit_sync_head(
                &mut code,
                name.as_str(),
                parameters.as_str(),
                out_label.as_str(),
                codec.as_str(),
            );
            emit_argument_lifts(&mut code, 2, &m.arguments);
            let ghost before_call = code@;
            match &m.return_type {
                Some(t) => {
                    code.push_line(
                        2,
                        join5(
                            "final result = obj.",
                            m.name.as_str(),
                            "(",
                            call_names.as_str(),
                            ");",
                        ),
                    );
                    code.push_line(
                        2,
                        join3("outReturn.value = ", t.codec_name.as_str(), ".lower(result);"),
                    );
                    code.push_line(2, String::from_str("status.code = CALL_SUCCESS;"));
                },
                None => {
                    code.push_line(
                        2,
                        join5("obj.", m.name.as_str(), "(", call_names.as_str(), ");"),
                    );
                    code.push_line(2, String::from_str("status.code = CALL_SUCCESS;"));
                },
            }
            assert(code@ =~= before_call + sync_call(m@));
            emit_sync_tail(&mut code);
            emit_trampoline_pointer(&mut code, method_type.as_str(), name.as_str());
            assert(code@ =~= sync_trampoline(callback_name@, cls@, prefix@, index as nat, m@));
        },
    }
    code
}

/// Emits the functions of a callback interface whose class is `cls` and whose
/// functions start with `prefix`: one trampoline per method in declaration
/// order, then the functions behind the two lifecycle slots.
pub fn emit_callback_functions(
    callback_name: &str,
    cls: &str,
    prefix: &str,
    methods: &Vec<MethodInfo>,
) -> (code: Code)
    ensures
        code@ == callback_functions(callback_name@, cls@, prefix@, method_info_views(methods@)),
{
    let ghost views = method_info_views(methods@);
    let ghost blocks = trampoline_blocks(callback_name@, cls@, prefix@, views);
    let mut code = Code::new();
    let n = methods.len();
    let mut i: usize = 0;
    proof {
        lemma_flatten_bounds(blocks);
    }
    while i < n
        invariant
            0 <= i <= n,
            n == methods@.len(),
            views == method_info_views(methods@),
            blocks == trampoline_blocks(callback_name@, cls@, prefix@, views),
            code@ == blocks.take(i as int).flatten(),
        decreases n - i,
    {
        let m = &methods[i];
        assert(views[i as int] == m@);
        let block = emit_trampoline(callback_name, cls, prefix, i, m);
        assert(block@ == blocks[i as int]);
        code.append(block);
        proof {
            lemma_flatten_step(blocks, i as int);
        }
        i += 1;
    }
    let codec = join3("FfiConverter", "CallbackInterface", cls);
    assert(codec@ =~= handle_map_codec(cls@));
    emit_free_callback(&mut code, callback_name, prefix, codec.as_str());
    emit_clone_callback(&mut code, callback_name, prefix, codec.as_str());
    code
}

/// The native and the Dart function type of a completion callback: it takes
/// the data of the call and the result struct.
pub open spec fn completion_typedef(native_name: Seq<char>, struct_class: Seq<char>) -> Seq<LineView> {
    seq![
        line(0, "typedef "@ + native_name + " = Void Function(Uint64, "@ + struct_class + ");"@),
        line(0, "typedef "@ + native_name + "Dart = void Function(int, "@ + struct_class + ");"@),
    ]
}

pub fn emit_completion_typedef(code: &mut Code, native_name: &str, struct_class: &str)
    ensures
        final(code)@ == old(code)@ + completion_typedef(native_name@, struct_class@),
{
    code.push_line(0, join5("typedef ", native_name, " = Void Function(Uint64, ", struct_class, ");"));
    code.push_line(0, join5("typedef ", native_name, "Dart = void Function(int, ", struct_class, ");"));
    assert(code@ =~= old(code)@ + completion_typedef(native_name@, struct_class@));
}

/// Opening of the codec class of a callback interface: the handle map, the
/// flag of the vtable registration, and `lift` and `lower` between objects
/// and handles. `lower` registers the vtable before the first handle leaves.
pub open spec fn converter_handles(cls: Seq<char>, converter: Seq<char>) -> Seq<LineView> {
    seq![
        line(0, "class "@ + converter + " {"@),
        line(1, "static final _handleMap = UniffiHandleMap<"@ + cls + ">();"@),
        line(1, "static bool _vtableInitialized = false;"@),
        line(0, Seq::<char>::empty()),
        line(1, "static "@ + cls + " lift(Pointer<Void> handle) {"@),
        line(2, "return _handleMap.get(handle.address);"@),
        line(1, "}"@),
        line(0, Seq::<char>::empty()),
        line(1, "static Pointer<Void> lower("@ + cls + " value) {"@),
        line(2, "_ensureVTableInitialized();"@),
        line(2, "final handle = _handleMap.insert(value);"@),
        line(2, "return Pointer<Void>.fromAddress(handle);"@),
        line(1, "}"@),
        line(0, Seq::<char>::empty()),
    ]
}

fn emit_converter_handles(code: &mut Code, cls: &str, converter: &str)
    ensures
        final(code)@ == old(code)@ + converter_handles(cls@, converter@),
{
    code.push_line(0, join3("class ", converter, " {"));
    code.push_line(1, join3("static final _handleMap = UniffiHandleMap<", cls, ">();"));
    code.push_line(1, String::from_str("static bool _vtableInitialized = false;"));
    code.push_blank();
    code.push_line(1, join3("static ", cls, " lift(Pointer<Void> handle) {"));
    code.push_line(2, String::from_str("return _handleMap.get(handle.address);"));
    code.push_line(1, String::from_str("}"));
    code.push_blank();
    code.push_line(1, join3("static Pointer<Void> lower(", cls, " value) {"));
    code.push_line(2, String::from_str("_ensureVTableInitialized();"));
    code.push_line(2, String::from_str("final handle = _handleMap.insert(value);"));
    code.push_line(2, String::from_str("return Pointer<Void>.fromAddress(handle);"));
    code.push_line(1, String::from_str("}"));
    code.push_blank();
    assert(code@ =~= old(code)@ + converter_handles(cls@, converter@));
}

/// The converter's way into the registration of the vtable: it calls the
/// registration function, which is guarded by the flag.
pub open spec fn converter_guard(init_fn: Seq<char>) -> Seq<LineView> {
    seq![
        line(1, "static void _ensureVTableInitialized() {"@),
        line(2, init_fn + "();"@),
        line(1, "}"@),
        line(0, Seq::<char>::empty()),
    ]
}

fn emit_converter_guard(code: &mut Code, init_fn: &str)
    ensures
        final(code)@ == old(code)@ + converter_guard(init_fn@),
{
    code.push_line(1, String::from_str("static void _ensureVTableInitialized() {"));
    code.push_line(2, join2(init_fn, "();"));
    code.push_line(1, String::from_str("}"));
    code.push_blank();
    assert(code@ =~= old(code)@ + converter_guard(init_fn@));
}

/// The buffer operations of the codec of a callback interface: a handle
/// takes eight bytes.
pub open spec fn converter_buffer(cls: Seq<char>) -> Seq<LineView> {
    seq![
        line(1, "static LiftRetVal<"@ + cls + "> read(Uint8List buf) {"@),
        line(2, "final handle = buf.buffer.asByteData(buf.offsetInBytes).getInt64(0);"@),
        line(2, "final pointer = Pointer<Void>.fromAddress(handle);"@),
        line(2, "return LiftRetVal(lift(pointer), 8);"@),
        line(1, "}"@),
        line(0, Seq::<char>::empty()),
        line(1, "static int write("@ + cls + " value, Uint8List buf) {"@),
        line(2, "final handle = lower(value);"@),
        line(2, "buf.buffer.asByteData(buf.offsetInBytes).setInt64(0, handle.address);"@),
        line(2, "return 8;"@),
        line(1, "}"@),
        line(0, Seq::<char>::empty()),
        line(1, "static int allocationSize("@ + cls + " value) {"@),
        line(2, "return 8;"@),
        line(1, "}"@),
        line(0, "}"@),
        line(0, Seq::<char>::empty()),
    ]
}

fn emit_converter_buffer(code: &mut Code, cls: &str)
    ensures
        final(code)@ == old(code)@ + converter_buffer(cls@),
{
    code.push_line(1, join3("static LiftRetVal<", cls, "> read(Uint8List buf) {"));
    code.push_line(2, String::from_str("final handle = buf.buffer.asByteData(buf.offsetInBytes).getInt64(0);"));
    code.push_line(2, String::from_str("final pointer = Pointer<Void>.fromAddress(handle);"));
    code.push_line(2, String::from_str("return LiftRetVal(lift(pointer), 8);"));
    code.push_line(1, String::from_str("}"));
    code.push_blank();
    code.push_line(1, join3("static int write(", cls, " value, Uint8List buf) {"));
    code.push_line(2, String::from_str("final handle = lower(value);"));
    code.push_line(2, String::from_str("buf.buffer.asByteData(buf.offsetInBytes).setInt64(0, handle.address);"));
    code.push_line(2, String::from_str("return 8;"));
    code.push_line(1, String::from_str("}"));
    code.push_blank();
    code.push_line(1, join3("static int allocationSize(", cls, " value) {"));
    code.push_line(2, String::from_str("return 8;"));
    code.push_line(1, String::from_str("}"));
    code.push_line(0, String::from_str("}"));
    code.push_blank();
    assert(code@ =~= old(code)@ + converter_buffer(cls@));
}

/// Opening of the registration function: the vtable instance, the guard,
/// and the two fixed slots. The guard tests the flag and sets it in one
/// step, so that only the first call goes on to register.
pub open spec fn vtable_init_head(callback_name: Seq<char>, instance: Seq<char>, codec: Seq<char>, prefix: Seq<char>) -> Seq<LineView> {
    seq![
        line(0, "late final Pointer<UniffiVTableCallbackInterface"@ + callback_name + "> "@ + instance + ";"@),
        line(0, Seq::<char>::empty()),
        line(0, "void init"@ + callback_name + "VTable() {"@),
        line(1, "if ("@ + codec + "._vtableInitialized) {"@),
        line(2, "return;"@),
        line(1, "}"@),
        line(1, codec + "._vtableInitialized = true;"@),
        line(0, Seq::<char>::empty()),
        line(1, instance + " = calloc<UniffiVTableCallbackInterface"@ + callback_name + ">();"@),
        line(1, instance + ".ref.uniffiFree = "@ + prefix + "FreePointer;"@),
        line(1, instance + ".ref.uniffiClone = "@ + prefix + "ClonePointer;"@),
    ]
}

fn emit_vtable_init_head(code: &mut Code, callback_name: &str, instance: &str, codec: &str, prefix: &str)
    ensures
        final(code)@ == old(code)@ + vtable_init_head(callback_name@, instance@, codec@, prefix@),
{
    code.push_line(0, join5("late final Pointer<UniffiVTableCallbackInterface", callback_name, "> ", instance, ";"));
    code.push_blank();
    code.push_line(0, join3("void init", callback_name, "VTable() {"));
    code.push_line(1, join3("if (", codec, "._vtableInitialized) {"));
    code.push_line(2, String::from_str("return;"));
    code.push_line(1, String::from_str("}"));
    code.push_line(1, join2(codec, "._vtableInitialized = true;"));
    code.push_blank();
    code.push_line(1, join4(instance, " = calloc<UniffiVTableCallbackInterface", callback_name, ">();"));
    code.push_line(1, join4(instance, ".ref.uniffiFree = ", prefix, "FreePointer;"));
    code.push_line(1, join4(instance, ".ref.uniffiClone = ", prefix, "ClonePointer;"));
    assert(code@ =~= old(code)@ + vtable_init_head(callback_name@, instance@, codec@, prefix@));
}

/// The call that hands the vtable to the native library.
pub open spec fn vtable_init_tail(instance: Seq<char>, ffi_module: Seq<char>, lower_name: Seq<char>) -> Seq<LineView> {
    seq![
        line(0, Seq::<char>::empty()),
        line(1, "rustCall((status) {"@),
        line(2, "uniffi_"@ + ffi_module + "_fn_init_callback_vtable_"@ + lower_name + "("@),
        line(3, instance + ","@),
        line(2, ");"@),
        line(2, "checkCallStatus(NullRustCallStatusErrorHandler(), status);"@),
        line(1, "});"@),
        line(0, "}"@),
    ]
}

fn emit_vtable_init_tail(code: &mut Code, instance: &str, ffi_module: &str, lower_name: &str)
    ensures
        final(code)@ == old(code)@ + vtable_init_tail(instance@, ffi_module@, lower_name@),
{
    code.push_blank();
    code.push_line(1, String::from_str("rustCall((status) {"));
    code.push_line(2, join5("uniffi_", ffi_module, "_fn_init_callback_vtable_", lower_name, "("));
    code.push_line(3, join2(instance, ","));
    code.push_line(2, String::from_str(");"));
    code.push_line(2, String::from_str("checkCallStatus(NullRustCallStatusErrorHandler(), status);"));
    code.push_line(1, String::from_str("});"));
    code.push_line(0, String::from_str("}"));
    assert(code@ =~= old(code)@ + vtable_init_tail(instance@, ffi_module@, lower_name@));
}
/// The lines of one field of an ABI struct: the width annotation, where the
/// field has one, and the declaration.
pub open spec fn field_lines(f: FieldInfoView) -> Seq<LineView> {
    match f.annotation {
        Some(a) => seq![
            line(1, a),
            line(1, "external "@ + f.type_label + " "@ + f.name + ";"@),
        ],
        None => seq![line(1, "external "@ + f.type_label + " "@ + f.name + ";"@)],
    }
}

/// The lines of all fields, block by block in the order of the struct.
pub open spec fn field_blocks(fields: Seq<FieldInfoView>) -> Seq<Seq<LineView>> {
    Seq::new(fields.len(), |i: int| field_lines(fields[i]))
}

/// The Dart class of an ABI struct. The fields stand in the order of the
/// struct: the layout is the contract with native code.
pub open spec fn struct_definition(s: StructInfoView) -> Seq<LineView> {
    seq![line(0, "final class "@ + s.class_name + " extends Struct {"@)] + field_blocks(
        s.fields,
    ).flatten() + seq![line(0, "}"@)]
}

/// Emits the Dart class of an ABI struct.
pub fn emit_struct_definition(s: &StructInfo) -> (code: Code)
    ensures
        code@ == struct_definition(s@),
{
    let ghost blocks = field_blocks(s@.fields);
    let mut code = Code::new();
    code.push_line(0, join3("final class ", s.class_name.as_str(), " extends Struct {"));
    let ghost head = code@;
    let n = s.fields.len();
    let mut i: usize = 0;
    proof {
        lemma_flatten_bounds(blocks);
        assert(code@ =~= head + blocks.take(0).flatten());
    }
    while i < n
        invariant
            0 <= i <= n,
            n == s.fields@.len(),
            blocks == field_blocks(s@.fields),
            code@ == head + blocks.take(i as int).flatten(),
        decreases n - i,
    {
        let f = &s.fields[i];
        assert(s@.fields[i as int] == f@);
        let ghost before = code@;
        match &f.annotation {
            Some(a) => {
                code.push_line(1, a.clone());
            },
            None => {},
        }
        code.push_line(
            1,
            join5("external ", f.type_label.as_str(), " ", f.name.as_str(), ";"),
        );
        proof {
            assert(code@ =~= before + field_lines(f@));
            lemma_flatten_step(blocks, i as int);
            assert(code@ =~= head + blocks.take(i + 1).flatten());
        }
        i += 1;
    }
    code.push_line(0, String::from_str("}"));
    assert(code@ =~= struct_definition(s@));
    code
}

/// The names that a run has emitted after the async support of `methods`,
/// when it had emitted `seen` before: each async method adds the key of its
/// result struct and the key of its completion callback type.
pub open spec fn registry_after(methods: Seq<MethodInfoView>, seen: Set<Seq<char>>) -> Set<
    Seq<char>,
>
    decreases methods.len(),
{
    if methods.len() == 0 {
        seen
    } else {
        let before = registry_after(methods.drop_last(), seen);
        match methods.last().completion {
            Some(c) => before.insert(c.struct_name).insert(c.base_name),
            None => before,
        }
    }
}

/// True when the method at position `i` is the one that emits its result
/// struct: it is async, and no earlier code of the run has that key.
pub open spec fn emits_struct(methods: Seq<MethodInfoView>, seen: Set<Seq<char>>, i: int) -> bool {
    methods[i].completion matches Some(c) && !registry_after(methods.take(i), seen).contains(
        c.struct_name,
    )
}

/// True when the method at position `i` is the one that emits its
/// completion callback type.
pub open spec fn emits_typedef(methods: Seq<MethodInfoView>, seen: Set<Seq<char>>, i: int) -> bool {
    methods[i].completion matches Some(c) && !registry_after(methods.take(i), seen).insert(
        c.struct_name,
    ).contains(c.base_name)
}

/// The result structs that the methods emit, block by block.
pub open spec fn async_struct_blocks(methods: Seq<MethodInfoView>, seen: Set<Seq<char>>) -> Seq<
    Seq<LineView>,
> {
    Seq::new(
        methods.len(),
        |i: int|
            if emits_struct(methods, seen, i) {
                struct_definition(methods[i].completion.unwrap().structure)
            } else {
                Seq::empty()
            },
    )
}

/// The completion callback types that the methods emit, block by block.
pub open spec fn async_typedef_blocks(methods: Seq<MethodInfoView>, seen: Set<Seq<char>>) -> Seq<
    Seq<LineView>,
> {
    Seq::new(
        methods.len(),
        |i: int|
            if emits_typedef(methods, seen, i) {
                completion_typedef(
                    methods[i].completion.unwrap().native_name,
                    methods[i].completion.unwrap().structure.class_name,
                )
            } else {
                Seq::empty()
            },
    )
}

/// The support definitions of the async methods: the completion callback
/// types, then the result structs. Each is emitted once per return shape.
pub open spec fn async_support(methods: Seq<MethodInfoView>, seen: Set<Seq<char>>) -> Seq<
    LineView,
> {
    async_typedef_blocks(methods, seen).flatten() + async_struct_blocks(methods, seen).flatten()
}

/// The registry after one more method.
pub proof fn lemma_registry_after_step(methods: Seq<MethodInfoView>, seen: Set<Seq<char>>, i: int)
    requires
        0 <= i < methods.len(),
    ensures
        registry_after(methods.take(i + 1), seen) == match methods[i].completion {
            Some(c) => registry_after(methods.take(i), seen).insert(c.struct_name).insert(
                c.base_name,
            ),
            None => registry_after(methods.take(i), seen),
        },
{
    assert(methods.take(i + 1).drop_last() =~= methods.take(i));
    assert(methods.take(i + 1).last() == methods[i]);
}

/// A run never forgets a name: what is listed after some methods is still
/// listed after more of them.
pub proof fn lemma_registry_after_grows(
    methods: Seq<MethodInfoView>,
    seen: Set<Seq<char>>,
    i: int,
    j: int,
)
    requires
        0 <= i <= j <= methods.len(),
    ensures
        registry_after(methods.take(i), seen).subset_of(registry_after(methods.take(j), seen)),
    decreases j - i,
{
    if i < j {
        lemma_registry_after_grows(methods, seen, i, j - 1);
        lemma_registry_after_step(methods, seen, j - 1);
    }
}

/// Two async methods with one return shape share one result struct and one
/// completion callback type: the later method emits neither.
pub proof fn lemma_shared_shape_emitted_once(
    methods: Seq<MethodInfoView>,
    seen: Set<Seq<char>>,
    i: int,
    j: int,
)
    requires
        0 <= i < j < methods.len(),
        methods[i].completion is Some,
        methods[j].completion is Some,
    ensures
        methods[i].completion.unwrap().struct_name == methods[j].completion.unwrap().struct_name
            ==> !emits_struct(methods, seen, j),
        methods[i].completion.unwrap().base_name == methods[j].completion.unwrap().base_name
            ==> !emits_typedef(methods, seen, j),
{
    lemma_registry_after_step(methods, seen, i);
    lemma_registry_after_grows(methods, seen, i + 1, j);
}

/// Emits the support definitions of the async methods and records their keys
/// in the registry.
pub fn emit_async_support(methods: &Vec<MethodInfo>, registry: &mut Registry) -> (code: Code)
    ensures
        code@ == async_support(method_info_views(methods@), old(registry)@),
        final(registry)@ == registry_after(method_info_views(methods@), old(registry)@),
        final(registry).requested() == old(registry).requested(),
{
    let ghost views = method_info_views(methods@);
    let ghost seen = registry@;
    let ghost struct_blocks = async_struct_blocks(views, seen);
    let ghost typedef_blocks = async_typedef_blocks(views, seen);
    let mut structs = Code::new();
    let mut typedefs = Code::new();
    let n = methods.len();
    let mut i: usize = 0;
    proof {
        lemma_flatten_bounds(struct_blocks);
        lemma_flatten_bounds(typedef_blocks);
        assert(views.take(0) =~= Seq::<MethodInfoView>::empty());
    }
    while i < n
        invariant
            0 <= i <= n,
            n == methods@.len(),
            views == method_info_views(methods@),
            struct_blocks == async_struct_blocks(views, seen),
            typedef_blocks == async_typedef_blocks(views, seen),
            registry@ == registry_after(views.take(i as int), seen),
            registry.requested() == old(registry).requested(),
            structs@ == struct_blocks.take(i as int).flatten(),
            typedefs@ == typedef_blocks.take(i as int).flatten(),
        decreases n - i,
    {
        let m = &methods[i];
        assert(views[i as int] == m@);
        let ghost structs_before = structs@;
        let ghost typedefs_before = typedefs@;
        match &m.completion {
            Some(c) => {
                let had_struct = registry.include_once_by_name(c.struct_name.as_str());
                if !had_struct {
                    let block = emit_struct_definition(&c.structure);
                    structs.append(block);
                }
                let had_typedef = registry.include_once_by_name(c.base_name.as_str());
                if !had_typedef {
                    let mut block = Code::new();
                    emit_completion_typedef(
                        &mut block,
                        c.native_name.as_str(),
                        c.structure.class_name.as_str(),
                    );
                    assert(block@ =~= completion_typedef(
                        c@.native_name,
                        c@.structure.class_name,
                    ));
                    typedefs.append(block);
                }
            },
            None => {},
        }
        proof {
            lemma_registry_after_step(views, seen, i as int);
            assert(structs@ =~= structs_before + struct_blocks[i as int]);
            assert(typedefs@ =~= typedefs_before + typedef_blocks[i as int]);
            lemma_flatten_step(struct_blocks, i as int);
            lemma_flatten_step(typedef_blocks, i as int);
        }
        i += 1;
    }
    assert(views.take(n as int) =~= views);
    let mut code = typedefs;
    code.append(structs);
    code
}

/// Text of the declaration of one method in the abstract class.
pub open spec fn method_definition_text(m: MethodInfoView) -> Seq<char> {
    definition_return(m) + " "@ + m.name + "("@ + argument_list(
        ArgumentForm::Definition,
        m.arguments,
    ) + ");"@
}

/// The abstract class that every implementer of the interface satisfies: one
/// declaration per method in declaration order.
pub open spec fn abstract_class(cls: Seq<char>, methods: Seq<MethodInfoView>) -> Seq<LineView> {
    seq![line(0, "abstract class "@ + cls + " {"@)] + Seq::new(
        methods.len(),
        |i: int| line(1, method_definition_text(methods[i])),
    ) + seq![line(0, "}"@), line(0, Seq::<char>::empty())]
}

/// Name of the function that registers the vtable of a callback interface.
pub open spec fn init_function_name(callback_name: Seq<char>) -> Seq<char> {
    "init"@ + callback_name + "VTable"@
}

/// The declarations of a callback interface: the abstract class, the codec
/// with its handle map and the guard of the vtable registration, the support
/// definitions of its async methods, and the function types of its slots.
pub open spec fn callback_interface(
    callback_name: Seq<char>,
    cls: Seq<char>,
    converter: Seq<char>,
    methods: Seq<MethodInfoView>,
    seen: Set<Seq<char>>,
) -> Seq<LineView> {
    abstract_class(cls, methods) + converter_handles(cls, converter) + converter_guard(
        init_function_name(callback_name),
    ) + converter_buffer(cls) + async_support(methods, seen) + methods_signatures(
        callback_name,
        methods,
    )
}

fn emit_abstract_class(code: &mut Code, cls: &str, methods: &Vec<MethodInfo>)
    ensures
        final(code)@ == old(code)@ + abstract_class(cls@, method_info_views(methods@)),
{
    let ghost views = method_info_views(methods@);
    let ghost definitions = Seq::new(
        views.len(),
        |i: int| line(1, method_definition_text(views[i])),
    );
    code.push_line(0, join3("abstract class ", cls, " {"));
    let ghost head = code@;
    let n = methods.len();
    let mut i: usize = 0;
    assert(code@ =~= head + definitions.take(0));
    while i < n
        invariant
            0 <= i <= n,
            n == methods@.len(),
            views == method_info_views(methods@),
            definitions == Seq::new(
                views.len(),
                |i: int| line(1, method_definition_text(views[i])),
            ),
            code@ == head + definitions.take(i as int),
        decreases n - i,
    {
        let m = &methods[i];
        assert(views[i as int] == m@);
        let text = emit_method_definition_text(m);
        code.push_line(1, text);
        assert(code@ =~= head + definitions.take(i + 1));
        i += 1;
    }
    code.push_line(0, String::from_str("}"));
    code.push_blank();
    assert(definitions.take(n as int) =~= definitions);
    assert(code@ =~= old(code)@ + abstract_class(cls@, views));
}

/// Emits the declarations of a callback interface whose class is `cls` and
/// whose codec class is `converter`, and records the keys of its async
/// support in the registry.
pub fn emit_callback_interface(
    callback_name: &str,
    cls: &str,
    converter: &str,
    methods: &Vec<MethodInfo>,
    registry: &mut Registry,
) -> (code: Code)
    ensures
        code@ == callback_interface(
            callback_name@,
            cls@,
            converter@,
            method_info_views(methods@),
            old(registry)@,
        ),
        final(registry)@ == registry_after(method_info_views(methods@), old(registry)@),
        final(registry).requested() == old(registry).requested(),
{
    let init_fn = join3("init", callback_name, "VTable");
    let mut code = Code::new();
    emit_abstract_class(&mut code, cls, methods);
    emit_converter_handles(&mut code, cls, converter);
    emit_converter_guard(&mut code, init_fn.as_str());
    emit_converter_buffer(&mut code, cls);
    let support = emit_async_support(methods, registry);
    code.append(support);
    let signatures = emit_methods_signatures(callback_name, methods);
    code.append(signatures);
    assert(code@ =~= callback_interface(
        callback_name@,
        cls@,
        converter@,
        method_info_views(methods@),
        old(registry)@,
    ));
    code
}

/// Name of the vtable instance of a callback interface.
pub open spec fn vtable_instance(prefix: Seq<char>) -> Seq<char> {
    prefix + "VTable"@
}

/// The lines that fill the method slots of the vtable, in declaration order:
/// each slot receives the pointer to the method's trampoline.
pub open spec fn vtable_assignments(prefix: Seq<char>, methods: Seq<MethodInfoView>) -> Seq<
    LineView,
> {
    Seq::new(
        methods.len(),
        |i: int|
            line(
                1,
                vtable_instance(prefix) + ".ref."@ + methods[i].name + " = "@ + trampoline_name(
                    prefix,
                    methods[i],
                ) + "Pointer;"@,
            ),
    )
}

/// The function that registers the vtable of a callback interface with the
/// native library. It is guarded by a flag that is tested and set in one
/// step, before anything else happens, so that only the first call
/// registers.
pub open spec fn vtable_init(
    callback_name: Seq<char>,
    cls: Seq<char>,
    prefix: Seq<char>,
    lower_name: Seq<char>,
    ffi_module: Seq<char>,
    methods: Seq<MethodInfoView>,
) -> Seq<LineView> {
    vtable_init_head(callback_name, vtable_instance(prefix), handle_map_codec(cls), prefix)
        + vtable_assignments(prefix, methods) + vtable_init_tail(
        vtable_instance(prefix),
        ffi_module,
        lower_name,
    )
}

/// Where the guard of the registration stands: the test of the flag opens
/// the function, the mark follows the test directly, and the native call
/// comes after both.
pub proof fn lemma_vtable_init_guard(
    callback_name: Seq<char>,
    cls: Seq<char>,
    prefix: Seq<char>,
    lower_name: Seq<char>,
    ffi_module: Seq<char>,
    methods: Seq<MethodInfoView>,
)
    ensures
        ({
            let t = vtable_init(callback_name, cls, prefix, lower_name, ffi_module, methods);
            let call = (11 + methods.len() + 2) as int;
            &&& call + 6 == t.len()
            &&& t[2] == line(0, "void init"@ + callback_name + "VTable() {"@)
            &&& t[3] == line(1, "if ("@ + handle_map_codec(cls) + "._vtableInitialized) {"@)
            &&& t[4] == line(2, "return;"@)
            &&& t[5] == line(1, "}"@)
            &&& t[6] == line(1, handle_map_codec(cls) + "._vtableInitialized = true;"@)
            &&& t[call] == line(
                2,
                "uniffi_"@ + ffi_module + "_fn_init_callback_vtable_"@ + lower_name + "("@,
            )
        }),
{
    let head = vtable_init_head(
        callback_name,
        vtable_instance(prefix),
        handle_map_codec(cls),
        prefix,
    );
    let tail = vtable_init_tail(vtable_instance(prefix), ffi_module, lower_name);
    let t = vtable_init(callback_name, cls, prefix, lower_name, ffi_module, methods);
    let n = methods.len() as int;
    assert(head.len() == 11);
    assert(tail.len() == 8);
    assert(forall|i: int| 0 <= i < 11 ==> t[i] == head[i]);
    assert(forall|i: int| 0 <= i < 8 ==> t[11 + n + i] == tail[i]);
    assert(t[11 + n + 2] == tail[2]);
}

/// Emits the function that registers the vtable of a callback interface.
pub fn emit_vtable_init(
    callback_name: &str,
    cls: &str,
    prefix: &str,
    lower_name: &str,
    ffi_module: &str,
    methods: &Vec<MethodInfo>,
) -> (code: Code)
    ensures
        code@ == vtable_init(
            callback_name@,
            cls@,
            prefix@,
            lower_name@,
            ffi_module@,
            method_info_views(methods@),
        ),
{
    let ghost views = method_info_views(methods@);
    let ghost assignments = vtable_assignments(prefix@, views);
    let instance = join2(prefix, "VTable");
    let codec = join3("FfiConverter", "CallbackInterface", cls);
    assert(codec@ =~= handle_map_codec(cls@));
    let mut code = Code::new();
    emit_vtable_init_head(&mut code, callback_name, instance.as_str(), codec.as_str(), prefix);
    let ghost head = code@;
    let n = methods.len();
    let mut i: usize = 0;
    assert(code@ =~= head + assignments.take(0));
    while i < n
        invariant
            0 <= i <= n,
            n == methods@.len(),
            views == method_info_views(methods@),
            assignments == vtable_assignments(prefix@, views),
            instance@ == vtable_instance(prefix@),
            code@ == head + assignments.take(i as int),
        decreases n - i,
    {
        let m = &methods[i];
        assert(views[i as int] == m@);
        let tramp = join2(prefix, m.class_name.as_str());
        code.push_line(
            1,
            join6(instance.as_str(), ".ref.", m.name.as_str(), " = ", tramp.as_str(), "Pointer;"),
        );
        assert(code@ =~= head + assignments.take(i + 1));
        i += 1;
    }
    assert(assignments.take(n as int) =~= assignments);
    emit_vtable_init_tail(&mut code, instance.as_str(), ffi_module, lower_name);
    assert(code@ =~= vtable_init(callback_name@, cls@, prefix@, lower_name@, ffi_module@, views));
    code
}

/// The wrapper class of a custom type: one field of the builtin type.
/// Text, equality and hash come from the wrapped value.
pub open spec fn custom_class(cls: Seq<char>, builtin_label: Seq<char>) -> Seq<LineView> {
    seq![
        line(0, "class "@ + cls + " {"@),
        line(1, "final "@ + builtin_label + " value;"@),
        line(0, Seq::<char>::empty()),
        line(1, "const "@ + cls + "(this.value);"@),
        line(0, Seq::<char>::empty()),
        line(1, "@override"@),
        line(1, "String toString() => value.toString();"@),
        line(0, Seq::<char>::empty()),
        line(1, "@override"@),
        line(1, "bool operator ==(Object other) =>"@),
        line(2, "other is "@ + cls + " &&"@),
        line(2, "other.value == value;"@),
        line(0, Seq::<char>::empty()),
        line(1, "@override"@),
        line(1, "int get hashCode => value.hashCode;"@),
        line(0, "}"@),
        line(0, Seq::<char>::empty()),
    ]
}

fn emit_custom_class(code: &mut Code, cls: &str, builtin_label: &str)
    ensures
        final(code)@ == old(code)@ + custom_class(cls@, builtin_label@),
{
    code.push_line(0, join3("class ", cls, " {"));
    code.push_line(1, join3("final ", builtin_label, " value;"));
    code.push_blank();
    code.push_line(1, join3("const ", cls, "(this.value);"));
    code.push_blank();
    code.push_line(1, String::from_str("@override"));
    code.push_line(1, String::from_str("String toString() => value.toString();"));
    code.push_blank();
    code.push_line(1, String::from_str("@override"));
    code.push_line(1, String::from_str("bool operator ==(Object other) =>"));
    code.push_line(2, join3("other is ", cls, " &&"));
    code.push_line(2, String::from_str("other.value == value;"));
    code.push_blank();
    code.push_line(1, String::from_str("@override"));
    code.push_line(1, String::from_str("int get hashCode => value.hashCode;"));
    code.push_line(0, String::from_str("}"));
    code.push_blank();
    assert(code@ =~= old(code)@ + custom_class(cls@, builtin_label@));
}

/// `lift` and `lower` of a custom type: the builtin's codec does the work,
/// and the value is wrapped after and unwrapped before.
pub open spec fn custom_scalar_codec(cls: Seq<char>, converter: Seq<char>, abi_label: Seq<char>, builtin_codec: Seq<char>) -> Seq<LineView> {
    seq![
        line(0, "class "@ + converter + " {"@),
        line(1, "static "@ + cls + " lift("@ + abi_label + " buf) {"@),
        line(2, "final builtinValue = "@ + builtin_codec + ".lift(buf);"@),
        line(2, "return "@ + cls + "(builtinValue);"@),
        line(1, "}"@),
        line(0, Seq::<char>::empty()),
        line(1, "static "@ + abi_label + " lower("@ + cls + " value) {"@),
        line(2, "return "@ + builtin_codec + ".lower(value.value);"@),
        line(1, "}"@),
        line(0, Seq::<char>::empty()),
    ]
}

fn emit_custom_scalar_codec(code: &mut Code, cls: &str, converter: &str, abi_label: &str, builtin_codec: &str)
    ensures
        final(code)@ == old(code)@ + custom_scalar_codec(cls@, converter@, abi_label@, builtin_codec@),
{
    code.push_line(0, join3("class ", converter, " {"));
    code.push_line(1, join5("static ", cls, " lift(", abi_label, " buf) {"));
    code.push_line(2, join3("final builtinValue = ", builtin_codec, ".lift(buf);"));
    code.push_line(2, join3("return ", cls, "(builtinValue);"));
    code.push_line(1, String::from_str("}"));
    code.push_blank();
    code.push_line(1, join5("static ", abi_label, " lower(", cls, " value) {"));
    code.push_line(2, join3("return ", builtin_codec, ".lower(value.value);"));
    code.push_line(1, String::from_str("}"));
    code.push_blank();
    assert(code@ =~= old(code)@ + custom_scalar_codec(cls@, converter@, abi_label@, builtin_codec@));
}

/// `read`, `write` and `allocationSize` of a custom type, each delegated to
/// the builtin's codec: a wrapped value takes the bytes that its builtin takes.
pub open spec fn custom_buffer_codec(cls: Seq<char>, builtin_codec: Seq<char>) -> Seq<LineView> {
    seq![
        line(1, "static LiftRetVal<"@ + cls + "> read(Uint8List buf, int offset) {"@),
        line(2, "final builtinResult = "@ + builtin_codec + ".read(buf, offset);"@),
        line(2, "return LiftRetVal("@ + cls + "(builtinResult.value), builtinResult.bytesRead);"@),
        line(1, "}"@),
        line(0, Seq::<char>::empty()),
        line(1, "static int write("@ + cls + " value, Uint8List buf) {"@),
        line(2, "return "@ + builtin_codec + ".write(value.value, buf);"@),
        line(1, "}"@),
        line(0, Seq::<char>::empty()),
        line(1, "static int allocationSize("@ + cls + " value) {"@),
        line(2, "return "@ + builtin_codec + ".allocationSize(value.value);"@),
        line(1, "}"@),
        line(0, "}"@),
    ]
}

fn emit_custom_buffer_codec(code: &mut Code, cls: &str, builtin_codec: &str)
    ensures
        final(code)@ == old(code)@ + custom_buffer_codec(cls@, builtin_codec@),
{
    code.push_line(1, join3("static LiftRetVal<", cls, "> read(Uint8List buf, int offset) {"));
    code.push_line(2, join3("final builtinResult = ", builtin_codec, ".read(buf, offset);"));
    code.push_line(2, join3("return LiftRetVal(", cls, "(builtinResult.value), builtinResult.bytesRead);"));
    code.push_line(1, String::from_str("}"));
    code.push_blank();
    code.push_line(1, join3("static int write(", cls, " value, Uint8List buf) {"));
    code.push_line(2, join3("return ", builtin_codec, ".write(value.value, buf);"));
    code.push_line(1, String::from_str("}"));
    code.push_blank();
    code.push_line(1, join3("static int allocationSize(", cls, " value) {"));
    code.push_line(2, join3("return ", builtin_codec, ".allocationSize(value.value);"));
    code.push_line(1, String::from_str("}"));
    code.push_line(0, String::from_str("}"));
    assert(code@ =~= old(code)@ + custom_buffer_codec(cls@, builtin_codec@));
}
/// The code of a custom type whose class is `cls` and whose codec class is
/// `converter`: the wrapper class around the builtin, and a codec that
/// delegates every operation to the builtin's codec.
pub open spec fn custom_type(cls: Seq<char>, converter: Seq<char>, builtin: TypeInfoView) -> Seq<
    LineView,
> {
    custom_class(cls, builtin.label) + custom_scalar_codec(
        cls,
        converter,
        dart_label_of(builtin.ffi_type),
        builtin.codec_name,
    ) + custom_buffer_codec(cls, builtin.codec_name)
}

/// Emits the code of a custom type around the builtin with info `builtin`.
pub fn emit_custom_type(cls: &str, converter: &str, builtin: &TypeInfo) -> (code: Code)
    ensures
        code@ == custom_type(cls@, converter@, builtin@),
{
    let abi_label = builtin.ffi_type.dart_label();
    let mut code = Code::new();
    emit_custom_class(&mut code, cls, builtin.label.as_str());
    emit_custom_scalar_codec(
        &mut code,
        cls,
        converter,
        abi_label.as_str(),
        builtin.codec_name.as_str(),
    );
    emit_custom_buffer_codec(&mut code, cls, builtin.codec_name.as_str());
    assert(code@ =~= custom_type(cls@, converter@, builtin@));
    code
}

} // verus!
