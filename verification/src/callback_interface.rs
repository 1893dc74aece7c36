//! Code for callback interfaces: interfaces that are implemented in Dart and
//! called from native code through a table of function pointers.
//!
//! For one callback interface the generator emits the abstract class, the
//! codec with its handle map, one trampoline per method, the vtable struct,
//! and the guarded registration of the vtable. The functions here resolve
//! the names of their input and hand them to the emitters.

use vstd::prelude::*;
use crate::emit::{
    callback_functions, callback_interface, completion_typedef, emit_callback_functions,
    request_async_returns, requested_after,
    emit_callback_interface, emit_completion_typedef, emit_method_definition,
    emit_methods_signatures, emit_struct_definition, emit_vtable_init, emit_vtable_interface,
    method_definition, methods_signatures, registry_after, struct_definition, vtable_init,
    vtable_interface,
};
use crate::error::GenerationError;
use crate::ffi::{optional_text, FfiStruct};
use crate::ir::{
    method_views, CallbackInterfaceView, ComponentInterface, InterfaceType, Method, TypeView,
};
use crate::oracle::{
    class_name, ffi_struct_name, fn_name, lower_camel_case, struct_class, upper_camel_case,
};
use crate::registry::Registry;
use crate::resolve::{
    callback_interface_info, codec_of, resolve_method, resolve_methods, resolve_struct,
    resolved_method, resolved_methods, resolved_struct, TypeInfo,
};
use crate::text::{lowercase, rendered, std_to_lowercase, Code, LineView};

verus! {

/// Emits the declarations of the callback interface called `callback_name`,
/// whose codec is called `ffi_converter_name`, and records the keys of its
/// async support in the registry.
pub fn generate_callback_interface(
    callback_name: &str,
    ffi_converter_name: &str,
    methods: &Vec<Method>,
    registry: &mut Registry,
) -> (code: Code)
    ensures
        code@ == callback_interface(
            callback_name@,
            upper_camel_case(callback_name@),
            upper_camel_case(ffi_converter_name@),
            resolved_methods(method_views(methods@)),
            old(registry)@,
        ),
        final(registry)@ == registry_after(
            resolved_methods(method_views(methods@)),
            old(registry)@,
        ),
        final(registry).requested() == old(registry).requested(),
{
    let cls = class_name(callback_name);
    let converter = class_name(ffi_converter_name);
    let infos = resolve_methods(methods);
    emit_callback_interface(callback_name, cls.as_str(), converter.as_str(), &infos, registry)
}

/// Emits the declaration of one method of the abstract class.
pub fn generate_callback_methods_definitions(method: &Method) -> (code: Code)
    ensures
        code@ == method_definition(resolved_method(method@)),
{
    let info = resolve_method(method);
    emit_method_definition(&info)
}

/// Emits the function types of the slots of a callback interface.
pub fn generate_callback_methods_signatures(callback_name: &str, methods: &Vec<Method>) -> (code:
    Code)
    ensures
        code@ == methods_signatures(callback_name@, resolved_methods(method_views(methods@))),
{
    let infos = resolve_methods(methods);
    emit_methods_signatures(callback_name, &infos)
}

/// Emits the vtable struct of a callback interface: the slots `free` and
/// `clone`, then one slot per method in declaration order.
pub fn generate_callback_vtable_interface(callback_name: &str, methods: &Vec<Method>) -> (code:
    Code)
    ensures
        code@ == vtable_interface(callback_name@, resolved_methods(method_views(methods@))),
        code@.len() == methods@.len() + 4,
{
    let infos = resolve_methods(methods);
    assert(crate::resolve::method_info_views(infos@).len() == methods@.len());
    emit_vtable_interface(callback_name, &infos)
}

/// Emits the functions of a callback interface: one trampoline per method
/// in declaration order, then the functions behind the slots `free` and
/// `clone`. The return types of the async methods are requested from the
/// registry, since their trampolines use the codecs of those types.
pub fn generate_callback_functions(
    callback_name: &str,
    methods: &Vec<Method>,
    registry: &mut Registry,
) -> (code: Code)
    ensures
        code@ == callback_functions(
            callback_name@,
            upper_camel_case(callback_name@),
            lower_camel_case(callback_name@),
            resolved_methods(method_views(methods@)),
        ),
        final(registry).requested() == requested_after(
            resolved_methods(method_views(methods@)),
            old(registry).requested(),
        ),
        final(registry)@ == old(registry)@,
{
    let cls = class_name(callback_name);
    let prefix = fn_name(callback_name);
    let infos = resolve_methods(methods);
    request_async_returns(&infos, registry);
    emit_callback_functions(callback_name, cls.as_str(), prefix.as_str(), &infos)
}

/// Emits the Dart class of the result struct of an async call.
pub fn generate_foreign_future_struct_definition(ffi_struct: &FfiStruct) -> (code: Code)
    ensures
        code@ == struct_definition(resolved_struct(ffi_struct@)),
{
    let info = resolve_struct(ffi_struct);
    emit_struct_definition(&info)
}

/// Emits the function types of the completion callback called
/// `callback_base`, which takes the result struct called `struct_name`.
pub fn generate_foreign_future_completion_typedef(callback_base: &str, struct_name: &str) -> (code:
    Code)
    ensures
        code@ == completion_typedef(
            struct_class(upper_camel_case(callback_base@)),
            struct_class(upper_camel_case(struct_name@)),
        ),
{
    let native_name = ffi_struct_name(callback_base);
    let struct_class = ffi_struct_name(struct_name);
    let mut code = Code::new();
    emit_completion_typedef(&mut code, native_name.as_str(), struct_class.as_str());
    assert(code@ =~= completion_typedef(native_name@, struct_class@));
    code
}

/// Emits the function that registers the vtable of a callback interface with
/// the native library of the module `ffi_module`.
pub fn generate_callback_interface_vtable_init_function(
    callback_name: &str,
    methods: &Vec<Method>,
    ffi_module: &str,
) -> (code: Code)
    ensures
        code@ == vtable_init(
            callback_name@,
            upper_camel_case(callback_name@),
            lower_camel_case(callback_name@),
            lowercase(callback_name@),
            ffi_module@,
            resolved_methods(method_views(methods@)),
        ),
{
    let cls = class_name(callback_name);
    let prefix = fn_name(callback_name);
    let lower_name = std_to_lowercase(callback_name);
    let infos = resolve_methods(methods);
    emit_vtable_init(
        callback_name,
        cls.as_str(),
        prefix.as_str(),
        lower_name.as_str(),
        ffi_module,
        &infos,
    )
}

/// The key under which the code of the callback interface called `name` is
/// emitted once.
pub open spec fn callback_canonical_name(name: Seq<char>) -> Seq<char> {
    callback_interface_info(name, upper_camel_case(name)).canonical_name
}

/// All the code of one callback interface of a native library whose
/// symbols carry the module name `ffi_module`, emitted in a run that had
/// emitted `seen` before: the declarations, the vtable struct, the
/// functions, and the registration.
pub open spec fn rendered_callback_interface(
    c: CallbackInterfaceView,
    ffi_module: Seq<char>,
    seen: Set<Seq<char>>,
) -> Seq<LineView> {
    let methods = resolved_methods(c.methods);
    let cls = upper_camel_case(c.name);
    let prefix = lower_camel_case(c.name);
    let converter = upper_camel_case(callback_interface_info(c.name, cls).codec_name);
    callback_interface(c.name, cls, converter, methods, seen) + vtable_interface(c.name, methods)
        + callback_functions(c.name, cls, prefix, methods) + vtable_init(
        c.name,
        cls,
        prefix,
        lowercase(c.name),
        ffi_module,
        methods,
    )
}

/// Generation is deterministic: two component interfaces of the same
/// structure render, in runs that have emitted the same names, to the same
/// lines and so to the same text, byte for byte.
pub proof fn lemma_generation_is_deterministic(
    a: ComponentInterface,
    b: ComponentInterface,
    name: Seq<char>,
    seen: Set<Seq<char>>,
)
    requires
        a@ == b@,
    ensures
        rendered_callback_interface(
            a@.definition(name),
            a@.ffi_module_for(a@.definition(name)),
            seen,
        ) == rendered_callback_interface(
            b@.definition(name),
            b@.ffi_module_for(b@.definition(name)),
            seen,
        ),
        rendered(
            rendered_callback_interface(
                a@.definition(name),
                a@.ffi_module_for(a@.definition(name)),
                seen,
            ),
        ) == rendered(
            rendered_callback_interface(
                b@.definition(name),
                b@.ffi_module_for(b@.definition(name)),
                seen,
            ),
        ),
{
}

/// The type of a callback interface, as the generator sees it.
#[derive(Debug)]
pub struct CallbackInterfaceCodeType {
    name: String,
    self_type: InterfaceType,
}

/// Mathematical value of a [`CallbackInterfaceCodeType`].
pub struct CallbackInterfaceCodeTypeView {
    pub name: Seq<char>,
    pub self_type: TypeView,
}

impl View for CallbackInterfaceCodeType {
    type V = CallbackInterfaceCodeTypeView;

    closed spec fn view(&self) -> CallbackInterfaceCodeTypeView {
        CallbackInterfaceCodeTypeView { name: self.name@, self_type: self.self_type@ }
    }
}

impl CallbackInterfaceCodeType {
    /// The code type of the callback interface called `name`.
    pub fn new(name: String, self_type: InterfaceType) -> (code_type: Self)
        ensures
            code_type@ == (CallbackInterfaceCodeTypeView { name: name@, self_type: self_type@ }),
    {
        Self { name, self_type }
    }

    /// The Dart class of the interface.
    pub fn type_label(&self) -> (label: String)
        ensures
            label@ == upper_camel_case(self@.name),
    {
        class_name(self.name.as_str())
    }

    /// The key under which the code of the interface is emitted once.
    pub fn canonical_name(&self) -> (name: String)
        ensures
            name@ == callback_canonical_name(self@.name),
    {
        let label = self.type_label();
        TypeInfo::callback_interface(self.name.as_str(), label.as_str()).canonical_name
    }

    /// The Dart class that holds the codec of the interface.
    pub fn ffi_converter_name(&self) -> (name: String)
        ensures
            name@ == codec_of(callback_canonical_name(self@.name)),
    {
        let label = self.type_label();
        TypeInfo::callback_interface(self.name.as_str(), label.as_str()).codec_name
    }

    /// The function that must run once before the interface is used.
    pub fn initialization_fn(&self) -> (hook: Option<String>)
        ensures
            optional_text(hook) == Some("_uniffiInitializeCallbackInterface"@ + self@.name),
    {
        let label = self.type_label();
        TypeInfo::callback_interface(self.name.as_str(), label.as_str()).init_hook
    }

    /// Emits all the code of the callback interface, once per run.
    ///
    /// Fails, and leaves the registry as it was, when the component
    /// interface defines no callback interface of that name. Emits nothing
    /// when the run has emitted the interface before.
    pub fn render_type_helper(&self, ci: &ComponentInterface, registry: &mut Registry) -> (r:
        Result<Code, GenerationError>)
        ensures
            r is Ok <==> ci@.defines(self@.name),
            r matches Err(e) ==> (e matches GenerationError::UnknownCallbackInterface { name }
                && name@ == self@.name) && final(registry)@ == old(registry)@ && final(registry).requested() == old(registry).requested(),
            r matches Ok(code) ==> if old(registry)@.contains(
                callback_canonical_name(self@.name),
            ) {
                code@ == Seq::<LineView>::empty() && final(registry)@ == old(registry)@ && final(registry).requested() == old(registry).requested()
            } else {
                let seen = old(registry)@.insert(callback_canonical_name(self@.name));
                let definition = ci@.definition(self@.name);
                code@ == rendered_callback_interface(
                    definition,
                    ci@.ffi_module_for(definition),
                    seen,
                ) && final(registry)@ == registry_after(resolved_methods(definition.methods), seen)
                    && final(registry).requested() == requested_after(
                    resolved_methods(definition.methods),
                    old(registry).requested(),
                )
            },
    {
        let callback = match ci.get_callback_interface_definition(self.name.as_str()) {
            Some(callback) => callback,
            None => {
                return Err(GenerationError::UnknownCallbackInterface { name: self.name.clone() });
            },
        };
        let canonical = self.canonical_name();
        if registry.include_once_by_name(canonical.as_str()) {
            assert(registry@ =~= old(registry)@);
            return Ok(Code::new());
        }
        let converter = self.ffi_converter_name();
        let mut code = generate_callback_interface(
            callback.name.as_str(),
            converter.as_str(),
            &callback.methods,
            registry,
        );
        let vtable = generate_callback_vtable_interface(callback.name.as_str(), &callback.methods);
        code.append(vtable);
        let functions = generate_callback_functions(
            callback.name.as_str(),
            &callback.methods,
            registry,
        );
        code.append(functions);
        let ffi_module = ci.ffi_module_for(callback);
        let init = generate_callback_interface_vtable_init_function(
            callback.name.as_str(),
            &callback.methods,
            ffi_module.as_str(),
        );
        code.append(init);
        assert(code@ =~= rendered_callback_interface(
            callback@,
            ci@.ffi_module_for(callback@),
            old(registry)@.insert(callback_canonical_name(self@.name)),
        ));
        Ok(code)
    }
}

} // verus!
