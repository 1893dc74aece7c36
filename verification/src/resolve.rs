//! Type resolution: from the types and methods of the interface to the names
//! and labels that the emitted code uses for them.
//!
//! Resolution is a function of the structure of a type alone, so every
//! occurrence of one type resolves to the same names. The canonical name is
//! the key under which a type's helper code is emitted once.

use vstd::prelude::*;
use crate::ffi::{
    dart_label_of, field_annotation_of, foreign_future_field_annotation, lowered,
    lowered_primitive, lowered_return, optional_text, result_struct_for, return_shape, FfiField,
    FfiFieldView, FfiStruct, FfiStructView, FfiType, FfiTypeView,
};
use crate::ir::{
    optional_type_view, Argument, ArgumentView, InterfaceType, Method, MethodView, Primitive,
    TypeView,
};
use crate::oracle::{
    class_name, ffi_struct_name, fn_name, lower_camel_case, struct_class, upper_camel_case,
    var_name, heck_upper_camel_case,
};
use crate::text::{join2, join3, join5};

verus! {

/// What the emitted code calls a type.
#[derive(Debug)]
pub struct TypeInfo {
    /// The Dart type.
    pub label: String,
    /// The key under which the type's helper code is emitted once.
    pub canonical_name: String,
    /// The Dart class that holds the type's codec.
    pub codec_name: String,
    /// The function that must run once before the type is used, if any.
    pub init_hook: Option<String>,
    /// The ABI type that values cross the boundary as.
    pub ffi_type: FfiType,
}

/// Mathematical value of a [`TypeInfo`].
pub struct TypeInfoView {
    pub label: Seq<char>,
    pub canonical_name: Seq<char>,
    pub codec_name: Seq<char>,
    pub init_hook: Option<Seq<char>>,
    pub ffi_type: FfiTypeView,
}

impl View for TypeInfo {
    type V = TypeInfoView;

    open spec fn view(&self) -> TypeInfoView {
        TypeInfoView {
            label: self.label@,
            canonical_name: self.canonical_name@,
            codec_name: self.codec_name@,
            init_hook: optional_text(self.init_hook),
            ffi_type: self.ffi_type@,
        }
    }
}

/// View of an optional type info.
pub open spec fn optional_info_view(t: Option<TypeInfo>) -> Option<TypeInfoView> {
    match t {
        Some(t) => Some(t@),
        None => None,
    }
}

/// Name of the codec class of the type with that canonical name.
pub open spec fn codec_of(canonical_name: Seq<char>) -> Seq<char> {
    "FfiConverter"@ + canonical_name
}

/// Dart type of a primitive kind.
pub open spec fn primitive_label(p: Primitive) -> Seq<char> {
    match p {
        Primitive::Float32 => "double"@,
        Primitive::Float64 => "double"@,
        Primitive::Boolean => "bool"@,
        Primitive::String => "String"@,
        Primitive::Bytes => "Uint8List"@,
        Primitive::Timestamp => "DateTime"@,
        Primitive::Duration => "Duration"@,
        _ => "int"@,
    }
}

/// Canonical name of a primitive kind.
pub open spec fn primitive_canonical(p: Primitive) -> Seq<char> {
    match p {
        Primitive::UInt8 => "UInt8"@,
        Primitive::Int8 => "Int8"@,
        Primitive::UInt16 => "UInt16"@,
        Primitive::Int16 => "Int16"@,
        Primitive::UInt32 => "UInt32"@,
        Primitive::Int32 => "Int32"@,
        Primitive::UInt64 => "UInt64"@,
        Primitive::Int64 => "Int64"@,
        Primitive::Float32 => "Double32"@,
        Primitive::Float64 => "Double64"@,
        Primitive::Boolean => "Bool"@,
        Primitive::String => "String"@,
        Primitive::Bytes => "Uint8List"@,
        Primitive::Timestamp => "Timestamp"@,
        Primitive::Duration => "Duration"@,
    }
}

/// Info of a primitive kind.
pub open spec fn primitive_info(p: Primitive) -> TypeInfoView {
    TypeInfoView {
        label: primitive_label(p),
        canonical_name: primitive_canonical(p),
        codec_name: codec_of(primitive_canonical(p)),
        init_hook: None,
        ffi_type: lowered_primitive(p),
    }
}

/// Info of a record, enum, object or custom type whose class is `class` and
/// whose values cross the boundary as `ffi_type`.
pub open spec fn named_info(class: Seq<char>, ffi_type: FfiTypeView) -> TypeInfoView {
    TypeInfoView {
        label: class,
        canonical_name: "Type"@ + class,
        codec_name: codec_of("Type"@ + class),
        init_hook: None,
        ffi_type,
    }
}

/// Info of the callback interface called `name`, whose class is `class`.
/// Its vtable must be registered before the first use.
pub open spec fn callback_interface_info(name: Seq<char>, class: Seq<char>) -> TypeInfoView {
    TypeInfoView {
        label: class,
        canonical_name: "CallbackInterface"@ + class,
        codec_name: codec_of("CallbackInterface"@ + class),
        init_hook: Some("_uniffiInitializeCallbackInterface"@ + name),
        ffi_type: FfiTypeView::UInt64,
    }
}

/// Info of the optional of a type.
pub open spec fn optional_info(inner: TypeInfoView) -> TypeInfoView {
    TypeInfoView {
        label: inner.label + "?"@,
        canonical_name: "Optional"@ + inner.canonical_name,
        codec_name: codec_of("Optional"@ + inner.canonical_name),
        init_hook: None,
        ffi_type: FfiTypeView::RustBuffer,
    }
}

/// Info of the sequence of a type.
pub open spec fn sequence_info(inner: TypeInfoView) -> TypeInfoView {
    TypeInfoView {
        label: "List<"@ + inner.label + ">"@,
        canonical_name: "Sequence"@ + inner.canonical_name,
        codec_name: codec_of("Sequence"@ + inner.canonical_name),
        init_hook: None,
        ffi_type: FfiTypeView::RustBuffer,
    }
}

/// Info of the map from one type to another.
pub open spec fn mapping_info(key: TypeInfoView, value: TypeInfoView) -> TypeInfoView {
    TypeInfoView {
        label: "Map<"@ + key.label + ", "@ + value.label + ">"@,
        canonical_name: "Map"@ + key.canonical_name + value.canonical_name,
        codec_name: codec_of("Map"@ + key.canonical_name + value.canonical_name),
        init_hook: None,
        ffi_type: FfiTypeView::RustBuffer,
    }
}

/// The info that a type resolves to.
pub open spec fn resolved(t: TypeView) -> TypeInfoView
    decreases t,
{
    match t {
        TypeView::Primitive(p) => primitive_info(p),
        TypeView::Record { name } => named_info(upper_camel_case(name), FfiTypeView::RustBuffer),
        TypeView::Enum { name } => named_info(upper_camel_case(name), FfiTypeView::RustBuffer),
        TypeView::Object { name } => named_info(
            upper_camel_case(name),
            FfiTypeView::RustArcPtr(name),
        ),
        TypeView::CallbackInterface { name } => callback_interface_info(
            name,
            upper_camel_case(name),
        ),
        TypeView::Custom { name, module, builtin } => named_info(
            upper_camel_case(name),
            resolved(*builtin).ffi_type,
        ),
        TypeView::Optional { inner } => optional_info(resolved(*inner)),
        TypeView::Sequence { inner } => sequence_info(resolved(*inner)),
        TypeView::Mapping { key, value } => mapping_info(resolved(*key), resolved(*value)),
    }
}

/// Resolution goes by structure, not by identity: two occurrences of one
/// type resolve to the same names, and so to the same canonical name.
pub proof fn lemma_resolution_is_structural(a: InterfaceType, b: InterfaceType)
    requires
        a@ == b@,
    ensures
        resolved(a@) == resolved(b@),
        resolved(a@).canonical_name == resolved(b@).canonical_name,
{
}

/// The info of an optional type: a return type, or a declared error type.
pub open spec fn resolved_return(t: Option<TypeView>) -> Option<TypeInfoView> {
    match t {
        Some(t) => Some(resolved(t)),
        None => None,
    }
}

/// A type resolves to the ABI type that it lowers to.
pub proof fn lemma_resolved_ffi_type(t: TypeView)
    ensures
        resolved(t).ffi_type == lowered(t),
    decreases t,
{
    match t {
        TypeView::Custom { name, module, builtin } => {
            lemma_resolved_ffi_type(*builtin);
        },
        _ => {},
    }
}

impl TypeInfo {
    /// Info of a primitive kind.
    pub fn primitive(p: Primitive) -> (info: TypeInfo)
        ensures
            info@ == primitive_info(p),
    {
        let label = match p {
            Primitive::Float32 => String::from_str("double"),
            Primitive::Float64 => String::from_str("double"),
            Primitive::Boolean => String::from_str("bool"),
            Primitive::String => String::from_str("String"),
            Primitive::Bytes => String::from_str("Uint8List"),
            Primitive::Timestamp => String::from_str("DateTime"),
            Primitive::Duration => String::from_str("Duration"),
            _ => String::from_str("int"),
        };
        let canonical: &str = match p {
            Primitive::UInt8 => "UInt8",
            Primitive::Int8 => "Int8",
            Primitive::UInt16 => "UInt16",
            Primitive::Int16 => "Int16",
            Primitive::UInt32 => "UInt32",
            Primitive::Int32 => "Int32",
            Primitive::UInt64 => "UInt64",
            Primitive::Int64 => "Int64",
            Primitive::Float32 => "Double32",
            Primitive::Float64 => "Double64",
            Primitive::Boolean => "Bool",
            Primitive::String => "String",
            Primitive::Bytes => "Uint8List",
            Primitive::Timestamp => "Timestamp",
            Primitive::Duration => "Duration",
        };
        let ffi_type = FfiType::of(&InterfaceType::Primitive(p));
        TypeInfo {
            label,
            canonical_name: String::from_str(canonical),
            codec_name: join2("FfiConverter", canonical),
            init_hook: None,
            ffi_type,
        }
    }

    /// Info of a record, enum, object or custom type from its class name and
    /// its ABI type.
    pub fn named(class: &str, ffi_type: FfiType) -> (info: TypeInfo)
        ensures
            info@ == named_info(class@, ffi_type@),
    {
        let canonical = join2("Type", class);
        let codec_name = join2("FfiConverter", canonical.as_str());
        TypeInfo {
            label: String::from_str(class),
            canonical_name: canonical,
            codec_name,
            init_hook: None,
            ffi_type,
        }
    }

    /// Info of a callback interface from its name and its class name.
    pub fn callback_interface(name: &str, class: &str) -> (info: TypeInfo)
        ensures
            info@ == callback_interface_info(name@, class@),
    {
        let canonical = join2("CallbackInterface", class);
        let codec_name = join2("FfiConverter", canonical.as_str());
        TypeInfo {
            label: String::from_str(class),
            canonical_name: canonical,
            codec_name,
            init_hook: Some(join2("_uniffiInitializeCallbackInterface", name)),
            ffi_type: FfiType::UInt64,
        }
    }

    /// Info of the optional of the type with info `inner`.
    pub fn optional(inner: &TypeInfo) -> (info: TypeInfo)
        ensures
            info@ == optional_info(inner@),
    {
        let canonical = join2("Optional", inner.canonical_name.as_str());
        let codec_name = join2("FfiConverter", canonical.as_str());
        TypeInfo {
            label: join2(inner.label.as_str(), "?"),
            canonical_name: canonical,
            codec_name,
            init_hook: None,
            ffi_type: FfiType::RustBuffer,
        }
    }

    /// Info of the sequence of the type with info `inner`.
    pub fn sequence(inner: &TypeInfo) -> (info: TypeInfo)
        ensures
            info@ == sequence_info(inner@),
    {
        let canonical = join2("Sequence", inner.canonical_name.as_str());
        let codec_name = join2("FfiConverter", canonical.as_str());
        TypeInfo {
            label: join3("List<", inner.label.as_str(), ">"),
            canonical_name: canonical,
            codec_name,
            init_hook: None,
            ffi_type: FfiType::RustBuffer,
        }
    }

    /// Info of the map from the type with info `key` to the one with info
    /// `value`.
    pub fn mapping(key: &TypeInfo, value: &TypeInfo) -> (info: TypeInfo)
        ensures
            info@ == mapping_info(key@, value@),
    {
        let canonical = join3("Map", key.canonical_name.as_str(), value.canonical_name.as_str());
        let codec_name = join2("FfiConverter", canonical.as_str());
        TypeInfo {
            label: join5("Map<", key.label.as_str(), ", ", value.label.as_str(), ">"),
            canonical_name: canonical,
            codec_name,
            init_hook: None,
            ffi_type: FfiType::RustBuffer,
        }
    }
}

/// Resolves a type of the interface to the names that the emitted code uses
/// for it.
pub fn resolve(t: &InterfaceType) -> (info: TypeInfo)
    ensures
        info@ == resolved(t@),
        info@.ffi_type == lowered(t@),
    decreases t,
{
    proof {
        lemma_resolved_ffi_type(t@);
    }
    match t {
        InterfaceType::Primitive(p) => TypeInfo::primitive(*p),
        InterfaceType::Record { name } => {
            let class = class_name(name.as_str());
            TypeInfo::named(class.as_str(), FfiType::RustBuffer)
        },
        InterfaceType::Enum { name } => {
            let class = class_name(name.as_str());
            TypeInfo::named(class.as_str(), FfiType::RustBuffer)
        },
        InterfaceType::Object { name } => {
            let class = class_name(name.as_str());
            TypeInfo::named(class.as_str(), FfiType::RustArcPtr(name.clone()))
        },
        InterfaceType::CallbackInterface { name } => {
            let class = class_name(name.as_str());
            TypeInfo::callback_interface(name.as_str(), class.as_str())
        },
        InterfaceType::Custom { name, module, builtin } => {
            let class = class_name(name.as_str());
            let inner = resolve(builtin);
            TypeInfo::named(class.as_str(), inner.ffi_type)
        },
        InterfaceType::Optional { inner } => {
            let inner = resolve(inner);
            TypeInfo::optional(&inner)
        },
        InterfaceType::Sequence { inner } => {
            let inner = resolve(inner);
            TypeInfo::sequence(&inner)
        },
        InterfaceType::Mapping { key, value } => {
            let key = resolve(key);
            let value = resolve(value);
            TypeInfo::mapping(&key, &value)
        },
    }
}

/// What the emitted code calls an argument.
#[derive(Debug)]
pub struct ArgumentInfo {
    /// The Dart parameter name.
    pub name: String,
    pub type_info: TypeInfo,
}

/// Mathematical value of an [`ArgumentInfo`].
pub struct ArgumentInfoView {
    pub name: Seq<char>,
    pub type_info: TypeInfoView,
}

impl View for ArgumentInfo {
    type V = ArgumentInfoView;

    open spec fn view(&self) -> ArgumentInfoView {
        ArgumentInfoView { name: self.name@, type_info: self.type_info@ }
    }
}

/// Views of a list of resolved arguments, in order.
pub open spec fn argument_info_views(arguments: Seq<ArgumentInfo>) -> Seq<ArgumentInfoView> {
    arguments.map_values(|a: ArgumentInfo| a@)
}

/// What the emitted code calls a field of an ABI struct.
#[derive(Debug)]
pub struct FieldInfo {
    /// The Dart field name.
    pub name: String,
    /// The Dart type of the field.
    pub type_label: String,
    /// The width annotation, for scalar fields.
    pub annotation: Option<String>,
}

/// Mathematical value of a [`FieldInfo`].
pub struct FieldInfoView {
    pub name: Seq<char>,
    pub type_label: Seq<char>,
    pub annotation: Option<Seq<char>>,
}

impl View for FieldInfo {
    type V = FieldInfoView;

    open spec fn view(&self) -> FieldInfoView {
        FieldInfoView {
            name: self.name@,
            type_label: self.type_label@,
            annotation: optional_text(self.annotation),
        }
    }
}

/// Views of a list of resolved fields, in order.
pub open spec fn field_info_views(fields: Seq<FieldInfo>) -> Seq<FieldInfoView> {
    fields.map_values(|f: FieldInfo| f@)
}

/// What the emitted code calls an ABI struct. The fields keep the order of
/// the struct: position is the contract with native code.
#[derive(Debug)]
pub struct StructInfo {
    pub class_name: String,
    pub fields: Vec<FieldInfo>,
}

/// Mathematical value of a [`StructInfo`].
pub struct StructInfoView {
    pub class_name: Seq<char>,
    pub fields: Seq<FieldInfoView>,
}

impl View for StructInfo {
    type V = StructInfoView;

    open spec fn view(&self) -> StructInfoView {
        StructInfoView {
            class_name: self.class_name@,
            fields: field_info_views(self.fields@),
        }
    }
}

/// The names around the completion of an async method. They derive from the
/// return shape alone, so methods that share a shape share them.
#[derive(Debug)]
pub struct CompletionInfo {
    /// Key of the completion callback type in the registry.
    pub base_name: String,
    /// The Dart typedef of the completion callback.
    pub native_name: String,
    /// Key of the result struct in the registry.
    pub struct_name: String,
    /// The result struct.
    pub structure: StructInfo,
}

/// Mathematical value of a [`CompletionInfo`].
pub struct CompletionInfoView {
    pub base_name: Seq<char>,
    pub native_name: Seq<char>,
    pub struct_name: Seq<char>,
    pub structure: StructInfoView,
}

impl View for CompletionInfo {
    type V = CompletionInfoView;

    open spec fn view(&self) -> CompletionInfoView {
        CompletionInfoView {
            base_name: self.base_name@,
            native_name: self.native_name@,
            struct_name: self.struct_name@,
            structure: self.structure@,
        }
    }
}

/// What the emitted code calls a method of a callback interface.
#[derive(Debug)]
pub struct MethodInfo {
    /// The Dart method name.
    pub name: String,
    /// The method's name in class casing, used in the trampoline's name.
    pub class_name: String,
    /// The arguments, in declaration order.
    pub arguments: Vec<ArgumentInfo>,
    pub return_type: Option<TypeInfo>,
    /// The error type that the method declares, if it declares one.
    pub throws: Option<TypeInfo>,
    /// The completion names of an async method; `None` for a sync method.
    pub completion: Option<CompletionInfo>,
}

/// Mathematical value of a [`MethodInfo`].
pub struct MethodInfoView {
    pub name: Seq<char>,
    pub class_name: Seq<char>,
    pub arguments: Seq<ArgumentInfoView>,
    pub return_type: Option<TypeInfoView>,
    pub throws: Option<TypeInfoView>,
    pub completion: Option<CompletionInfoView>,
}

impl MethodInfoView {
    /// True for an async method.
    pub open spec fn is_async(self) -> bool {
        self.completion is Some
    }
}

impl View for MethodInfo {
    type V = MethodInfoView;

    open spec fn view(&self) -> MethodInfoView {
        MethodInfoView {
            name: self.name@,
            class_name: self.class_name@,
            arguments: argument_info_views(self.arguments@),
            return_type: optional_info_view(self.return_type),
            throws: optional_info_view(self.throws),
            completion: match self.completion {
                Some(c) => Some(c@),
                None => None,
            },
        }
    }
}

/// Views of a list of resolved methods, in order.
pub open spec fn method_info_views(methods: Seq<MethodInfo>) -> Seq<MethodInfoView> {
    methods.map_values(|m: MethodInfo| m@)
}

/// The info that an argument resolves to.
pub open spec fn resolved_argument(a: ArgumentView) -> ArgumentInfoView {
    ArgumentInfoView { name: lower_camel_case(a.name), type_info: resolved(a.type_) }
}

/// The info that a field of an ABI struct resolves to.
pub open spec fn resolved_field(f: FfiFieldView) -> FieldInfoView {
    FieldInfoView {
        name: lower_camel_case(f.name),
        type_label: dart_label_of(f.type_),
        annotation: field_annotation_of(f.type_),
    }
}

/// The info that an ABI struct resolves to.
pub open spec fn resolved_struct(s: FfiStructView) -> StructInfoView {
    StructInfoView {
        class_name: struct_class(upper_camel_case(s.name)),
        fields: s.fields.map_values(|f: FfiFieldView| resolved_field(f)),
    }
}

/// Key of the completion callback type for the return shape whose name in
/// UpperCamelCase is `shape`.
pub open spec fn completion_base(shape: Seq<char>) -> Seq<char> {
    "ForeignFutureComplete"@ + shape
}

/// The completion names of an async method with the given return type.
pub open spec fn resolved_completion(return_type: Option<TypeView>) -> CompletionInfoView {
    let ffi = lowered_return(return_type);
    let shape = upper_camel_case(return_shape(ffi));
    let structure = result_struct_for(shape, ffi);
    CompletionInfoView {
        base_name: completion_base(shape),
        native_name: struct_class(upper_camel_case(completion_base(shape))),
        struct_name: structure.name,
        structure: resolved_struct(structure),
    }
}

/// The info that a method resolves to.
pub open spec fn resolved_method(m: MethodView) -> MethodInfoView {
    MethodInfoView {
        name: lower_camel_case(m.name),
        class_name: upper_camel_case(m.name),
        arguments: m.arguments.map_values(|a: ArgumentView| resolved_argument(a)),
        return_type: resolved_return(m.return_type),
        throws: resolved_return(m.throws),
        completion: if m.is_async {
            Some(resolved_completion(m.return_type))
        } else {
            None
        },
    }
}

/// The infos that a list of methods resolves to, in order.
pub open spec fn resolved_methods(methods: Seq<MethodView>) -> Seq<MethodInfoView> {
    methods.map_values(|m: MethodView| resolved_method(m))
}

/// Resolves a field of an ABI struct.
pub fn resolve_field(f: &FfiField) -> (info: FieldInfo)
    ensures
        info@ == resolved_field(f@),
{
    FieldInfo {
        name: var_name(f.name.as_str()),
        type_label: f.type_.dart_label(),
        annotation: foreign_future_field_annotation(&f.type_),
    }
}

/// Resolves an ABI struct; the fields keep their order.
pub fn resolve_struct(s: &FfiStruct) -> (info: StructInfo)
    ensures
        info@ == resolved_struct(s@),
{
    let class_name = ffi_struct_name(s.name.as_str());
    let mut fields: Vec<FieldInfo> = Vec::new();
    let n = s.fields.len();
    let mut i: usize = 0;
    while i < n
        invariant
            0 <= i <= n,
            n == s.fields@.len(),
            fields@.len() == i,
            field_info_views(fields@) == resolved_struct(s@).fields.take(i as int),
        decreases n - i,
    {
        let info = resolve_field(&s.fields[i]);
        let ghost before = fields@;
        fields.push(info);
        proof {
            let wanted = resolved_struct(s@).fields;
            assert(s@.fields[i as int] == s.fields@[i as int]@);
            assert(wanted[i as int] == info@);
            assert forall|j: int| 0 <= j < i implies fields@[j]@ == wanted[j] by {
                assert(field_info_views(before)[j] == wanted.take(i as int)[j]);
            }
            assert(field_info_views(fields@) =~= wanted.take(i + 1));
        }
        i += 1;
    }
    assert(resolved_struct(s@).fields.take(n as int) =~= resolved_struct(s@).fields);
    StructInfo { class_name, fields }
}

/// Name of the completion callback type of an async method: it derives from
/// the method's return shape alone.
pub fn foreign_future_completion_name(method: &Method) -> (name: String)
    ensures
        name@ == resolved_completion(method@.return_type).base_name,
{
    let ffi = FfiType::of_return(&method.return_type);
    match FfiType::return_type_name(ffi.as_ref()) {
        Some(shape_name) => {
            let shape = heck_upper_camel_case(shape_name.as_str());
            join2("ForeignFutureComplete", shape.as_str())
        },
        None => vstd::pervasive::unreached(),
    }
}

/// Resolves the completion names of an async method with the given return
/// type.
pub fn resolve_completion(return_type: &Option<InterfaceType>) -> (info: CompletionInfo)
    ensures
        info@ == resolved_completion(optional_type_view(*return_type)),
{
    let ffi = FfiType::of_return(return_type);
    match FfiType::return_type_name(ffi.as_ref()) {
        Some(shape_name) => {
            let shape = heck_upper_camel_case(shape_name.as_str());
            let base_name = join2("ForeignFutureComplete", shape.as_str());
            let native_name = ffi_struct_name(base_name.as_str());
            let structure = crate::ffi::result_struct(shape.as_str(), ffi);
            let info = resolve_struct(&structure);
            CompletionInfo { base_name, native_name, struct_name: structure.name, structure: info }
        },
        None => vstd::pervasive::unreached(),
    }
}

/// Resolves an argument.
pub fn resolve_argument(a: &Argument) -> (info: ArgumentInfo)
    ensures
        info@ == resolved_argument(a@),
{
    ArgumentInfo { name: var_name(a.name.as_str()), type_info: resolve(&a.type_) }
}

/// Resolves a method; the arguments keep their order.
pub fn resolve_method(m: &Method) -> (info: MethodInfo)
    ensures
        info@ == resolved_method(m@),
{
    let mut arguments: Vec<ArgumentInfo> = Vec::new();
    let n = m.arguments.len();
    let mut i: usize = 0;
    while i < n
        invariant
            0 <= i <= n,
            n == m.arguments@.len(),
            arguments@.len() == i,
            argument_info_views(arguments@) == resolved_method(m@).arguments.take(i as int),
        decreases n - i,
    {
        let info = resolve_argument(&m.arguments[i]);
        let ghost before = arguments@;
        arguments.push(info);
        proof {
            let wanted = resolved_method(m@).arguments;
            assert(m@.arguments[i as int] == m.arguments@[i as int]@);
            assert(wanted[i as int] == info@);
            assert forall|j: int| 0 <= j < i implies arguments@[j]@ == wanted[j] by {
                assert(argument_info_views(before)[j] == wanted.take(i as int)[j]);
            }
            assert(argument_info_views(arguments@) =~= wanted.take(i + 1));
        }
        i += 1;
    }
    assert(resolved_method(m@).arguments.take(n as int) =~= resolved_method(m@).arguments);
    let return_type = match &m.return_type {
        Some(t) => Some(resolve(t)),
        None => None,
    };
    let throws = match &m.throws {
        Some(t) => Some(resolve(t)),
        None => None,
    };
    let completion = if m.is_async {
        Some(resolve_completion(&m.return_type))
    } else {
        None
    };
    MethodInfo {
        name: fn_name(m.name.as_str()),
        class_name: class_name(m.name.as_str()),
        arguments,
        return_type,
        throws,
        completion,
    }
}

/// Resolves the methods of a callback interface, in declaration order.
pub fn resolve_methods(methods: &Vec<Method>) -> (infos: Vec<MethodInfo>)
    ensures
        method_info_views(infos@) == resolved_methods(crate::ir::method_views(methods@)),
{
    let mut infos: Vec<MethodInfo> = Vec::new();
    let n = methods.len();
    let ghost wanted = resolved_methods(crate::ir::method_views(methods@));
    let mut i: usize = 0;
    while i < n
        invariant
            0 <= i <= n,
            n == methods@.len(),
            wanted == resolved_methods(crate::ir::method_views(methods@)),
            infos@.len() == i,
            method_info_views(infos@) == wanted.take(i as int),
        decreases n - i,
    {
        let info = resolve_method(&methods[i]);
        let ghost before = infos@;
        infos.push(info);
        proof {
            assert(crate::ir::method_views(methods@)[i as int] == methods@[i as int]@);
            assert(wanted[i as int] == info@);
            assert forall|j: int| 0 <= j < i implies infos@[j]@ == wanted[j] by {
                assert(method_info_views(before)[j] == wanted.take(i as int)[j]);
            }
            assert(method_info_views(infos@) =~= wanted.take(i + 1));
        }
        i += 1;
    }
    assert(wanted.take(n as int) =~= wanted);
    infos
}

} // verus!
