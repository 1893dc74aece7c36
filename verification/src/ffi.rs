//! The low-level types of the native ABI: scalars, pointers, byte buffers,
//! structs, and the lowering of interface types to them.
//!
//! The types here hold what the generators read: the kind of an ABI type,
//! and the name where a pointer or a struct has one. The lowering, the names
//! of return shapes and the result struct of an async call follow the
//! interface compiler, which computes them on types of its own; the tests
//! hold each of the three against it on every kind of type.

use vstd::prelude::*;
use crate::ir::{InterfaceType, Primitive, TypeView};
use crate::error::GenerationError;
use crate::oracle::{ffi_struct_name, heck_upper_camel_case, struct_class, upper_camel_case};

verus! {

/// A type that can cross the native boundary. Field order of structs and
/// parameter order of functions over these types is the contract with native
/// code.
#[derive(Debug)]
pub enum FfiType {
    UInt8,
    Int8,
    UInt16,
    Int16,
    UInt32,
    Int32,
    UInt64,
    Int64,
    Float32,
    Float64,
    /// Pointer to a native object of the named type.
    RustArcPtr(String),
    /// Handle of a byte buffer that carries a serialized value. The type of
    /// the value in the buffer is not part of the ABI type.
    RustBuffer,
    /// Reference to the ABI struct of that name.
    Struct(String),
    /// The status marker that each call reports its outcome in.
    RustCallStatus,
}

/// Mathematical value of an [`FfiType`].
pub enum FfiTypeView {
    UInt8,
    Int8,
    UInt16,
    Int16,
    UInt32,
    Int32,
    UInt64,
    Int64,
    Float32,
    Float64,
    RustArcPtr(Seq<char>),
    RustBuffer,
    Struct(Seq<char>),
    RustCallStatus,
}

impl View for FfiType {
    type V = FfiTypeView;

    open spec fn view(&self) -> FfiTypeView {
        match self {
            FfiType::UInt8 => FfiTypeView::UInt8,
            FfiType::Int8 => FfiTypeView::Int8,
            FfiType::UInt16 => FfiTypeView::UInt16,
            FfiType::Int16 => FfiTypeView::Int16,
            FfiType::UInt32 => FfiTypeView::UInt32,
            FfiType::Int32 => FfiTypeView::Int32,
            FfiType::UInt64 => FfiTypeView::UInt64,
            FfiType::Int64 => FfiTypeView::Int64,
            FfiType::Float32 => FfiTypeView::Float32,
            FfiType::Float64 => FfiTypeView::Float64,
            FfiType::RustArcPtr(name) => FfiTypeView::RustArcPtr(name@),
            FfiType::RustBuffer => FfiTypeView::RustBuffer,
            FfiType::Struct(name) => FfiTypeView::Struct(name@),
            FfiType::RustCallStatus => FfiTypeView::RustCallStatus,
        }
    }
}

impl Clone for FfiType {
    fn clone(&self) -> (copy: Self)
        ensures
            copy@ == self@,
    {
        match self {
            FfiType::UInt8 => FfiType::UInt8,
            FfiType::Int8 => FfiType::Int8,
            FfiType::UInt16 => FfiType::UInt16,
            FfiType::Int16 => FfiType::Int16,
            FfiType::UInt32 => FfiType::UInt32,
            FfiType::Int32 => FfiType::Int32,
            FfiType::UInt64 => FfiType::UInt64,
            FfiType::Int64 => FfiType::Int64,
            FfiType::Float32 => FfiType::Float32,
            FfiType::Float64 => FfiType::Float64,
            FfiType::RustArcPtr(name) => FfiType::RustArcPtr(name.clone()),
            FfiType::RustBuffer => FfiType::RustBuffer,
            FfiType::Struct(name) => FfiType::Struct(name.clone()),
            FfiType::RustCallStatus => FfiType::RustCallStatus,
        }
    }
}

/// View of an optional ABI type.
pub open spec fn optional_ffi_view(t: Option<FfiType>) -> Option<FfiTypeView> {
    match t {
        Some(t) => Some(t@),
        None => None,
    }
}

/// The ABI type that a value of the primitive kind `p` crosses the boundary
/// as. Booleans travel as one signed byte; strings, byte strings, timestamps
/// and durations travel in a byte buffer.
pub open spec fn lowered_primitive(p: Primitive) -> FfiTypeView {
    match p {
        Primitive::UInt8 => FfiTypeView::UInt8,
        Primitive::Int8 => FfiTypeView::Int8,
        Primitive::UInt16 => FfiTypeView::UInt16,
        Primitive::Int16 => FfiTypeView::Int16,
        Primitive::UInt32 => FfiTypeView::UInt32,
        Primitive::Int32 => FfiTypeView::Int32,
        Primitive::UInt64 => FfiTypeView::UInt64,
        Primitive::Int64 => FfiTypeView::Int64,
        Primitive::Float32 => FfiTypeView::Float32,
        Primitive::Float64 => FfiTypeView::Float64,
        Primitive::Boolean => FfiTypeView::Int8,
        Primitive::String => FfiTypeView::RustBuffer,
        Primitive::Bytes => FfiTypeView::RustBuffer,
        Primitive::Timestamp => FfiTypeView::RustBuffer,
        Primitive::Duration => FfiTypeView::RustBuffer,
    }
}

/// The ABI type that a value of the interface type `t` crosses the boundary
/// as. Objects travel as pointers, callback interfaces as 64-bit handles,
/// composite values in a byte buffer, and a custom type as its builtin does.
pub open spec fn lowered(t: TypeView) -> FfiTypeView
    decreases t,
{
    match t {
        TypeView::Primitive(p) => lowered_primitive(p),
        TypeView::Object { name } => FfiTypeView::RustArcPtr(name),
        TypeView::CallbackInterface { name } => FfiTypeView::UInt64,
        TypeView::Record { name } => FfiTypeView::RustBuffer,
        TypeView::Enum { name } => FfiTypeView::RustBuffer,
        TypeView::Optional { inner } => FfiTypeView::RustBuffer,
        TypeView::Sequence { inner } => FfiTypeView::RustBuffer,
        TypeView::Mapping { key, value } => FfiTypeView::RustBuffer,
        TypeView::Custom { name, module, builtin } => lowered(*builtin),
    }
}

/// The lowering of an optional return type.
pub open spec fn lowered_return(t: Option<TypeView>) -> Option<FfiTypeView> {
    match t {
        Some(t) => Some(lowered(t)),
        None => None,
    }
}

/// True for the ABI types that a call can return: scalars, pointers and byte
/// buffers.
pub open spec fn is_return_type(t: FfiTypeView) -> bool {
    !(t is Struct) && !(t is RustCallStatus)
}

/// Name of a return shape: the ABI type's short name, or `void` where the
/// call returns nothing. Defined for the types that a call can return.
pub open spec fn return_shape(t: Option<FfiTypeView>) -> Seq<char> {
    match t {
        None => "void"@,
        Some(FfiTypeView::UInt8) => "u8"@,
        Some(FfiTypeView::Int8) => "i8"@,
        Some(FfiTypeView::UInt16) => "u16"@,
        Some(FfiTypeView::Int16) => "i16"@,
        Some(FfiTypeView::UInt32) => "u32"@,
        Some(FfiTypeView::Int32) => "i32"@,
        Some(FfiTypeView::UInt64) => "u64"@,
        Some(FfiTypeView::Int64) => "i64"@,
        Some(FfiTypeView::Float32) => "f32"@,
        Some(FfiTypeView::Float64) => "f64"@,
        Some(FfiTypeView::RustArcPtr(_)) => "pointer"@,
        Some(FfiTypeView::RustBuffer) => "rust_buffer"@,
        Some(_) => Seq::empty(),
    }
}

/// Every interface type lowers to a type that a call can return.
pub proof fn lemma_lowered_is_return_type(t: TypeView)
    ensures
        is_return_type(lowered(t)),
    decreases t,
{
    match t {
        TypeView::Custom { name, module, builtin } => {
            lemma_lowered_is_return_type(*builtin);
        },
        _ => {},
    }
}

impl FfiType {
    /// The ABI type that a value of the interface type `t` crosses the
    /// boundary as.
    pub fn of(t: &InterfaceType) -> (ffi: FfiType)
        ensures
            ffi@ == lowered(t@),
            is_return_type(ffi@),
        decreases t,
    {
        proof {
            lemma_lowered_is_return_type(t@);
        }
        match t {
            InterfaceType::Primitive(p) => match p {
                Primitive::UInt8 => FfiType::UInt8,
                Primitive::Int8 => FfiType::Int8,
                Primitive::UInt16 => FfiType::UInt16,
                Primitive::Int16 => FfiType::Int16,
                Primitive::UInt32 => FfiType::UInt32,
                Primitive::Int32 => FfiType::Int32,
                Primitive::UInt64 => FfiType::UInt64,
                Primitive::Int64 => FfiType::Int64,
                Primitive::Float32 => FfiType::Float32,
                Primitive::Float64 => FfiType::Float64,
                Primitive::Boolean => FfiType::Int8,
                Primitive::String => FfiType::RustBuffer,
                Primitive::Bytes => FfiType::RustBuffer,
                Primitive::Timestamp => FfiType::RustBuffer,
                Primitive::Duration => FfiType::RustBuffer,
            },
            InterfaceType::Object { name } => FfiType::RustArcPtr(name.clone()),
            InterfaceType::CallbackInterface { .. } => FfiType::UInt64,
            InterfaceType::Record { .. } => FfiType::RustBuffer,
            InterfaceType::Enum { .. } => FfiType::RustBuffer,
            InterfaceType::Optional { .. } => FfiType::RustBuffer,
            InterfaceType::Sequence { .. } => FfiType::RustBuffer,
            InterfaceType::Mapping { .. } => FfiType::RustBuffer,
            InterfaceType::Custom { builtin, .. } => FfiType::of(builtin),
        }
    }

    /// The lowering of an optional return type.
    pub fn of_return(t: &Option<InterfaceType>) -> (ffi: Option<FfiType>)
        ensures
            optional_ffi_view(ffi) == lowered_return(crate::ir::optional_type_view(*t)),
            ffi matches Some(f) ==> is_return_type(f@),
    {
        match t {
            Some(t) => Some(FfiType::of(t)),
            None => None,
        }
    }

    /// Unique name of a return shape, or `None` for an ABI type that no call
    /// can return.
    pub fn return_type_name(return_type: Option<&FfiType>) -> (name: Option<String>)
        ensures
            name is Some <==> (return_type matches Some(t) ==> is_return_type(t@)),
            name matches Some(n) ==> n@ == return_shape(
                match return_type {
                    Some(t) => Some(t@),
                    None => None,
                },
            ),
    {
        match return_type {
            None => Some(String::from_str("void")),
            Some(t) => match t {
                FfiType::UInt8 => Some(String::from_str("u8")),
                FfiType::Int8 => Some(String::from_str("i8")),
                FfiType::UInt16 => Some(String::from_str("u16")),
                FfiType::Int16 => Some(String::from_str("i16")),
                FfiType::UInt32 => Some(String::from_str("u32")),
                FfiType::Int32 => Some(String::from_str("i32")),
                FfiType::UInt64 => Some(String::from_str("u64")),
                FfiType::Int64 => Some(String::from_str("i64")),
                FfiType::Float32 => Some(String::from_str("f32")),
                FfiType::Float64 => Some(String::from_str("f64")),
                FfiType::RustArcPtr(_) => Some(String::from_str("pointer")),
                FfiType::RustBuffer => Some(String::from_str("rust_buffer")),
                FfiType::Struct(_) => None,
                FfiType::RustCallStatus => None,
            },
        }
    }
}

/// The `dart:ffi` native type that stands for `t` in a native signature.
pub open spec fn native_label_of(t: FfiTypeView) -> Seq<char> {
    match t {
        FfiTypeView::UInt8 => "Uint8"@,
        FfiTypeView::Int8 => "Int8"@,
        FfiTypeView::UInt16 => "Uint16"@,
        FfiTypeView::Int16 => "Int16"@,
        FfiTypeView::UInt32 => "Uint32"@,
        FfiTypeView::Int32 => "Int32"@,
        FfiTypeView::UInt64 => "Uint64"@,
        FfiTypeView::Int64 => "Int64"@,
        FfiTypeView::Float32 => "Float"@,
        FfiTypeView::Float64 => "Double"@,
        FfiTypeView::RustArcPtr(_) => "Pointer<Void>"@,
        FfiTypeView::RustBuffer => "RustBuffer"@,
        FfiTypeView::Struct(name) => struct_class(upper_camel_case(name)),
        FfiTypeView::RustCallStatus => "RustCallStatus"@,
    }
}

/// The Dart type that a value of `t` has on the Dart side of a native
/// signature.
pub open spec fn dart_label_of(t: FfiTypeView) -> Seq<char> {
    match t {
        FfiTypeView::UInt8 => "int"@,
        FfiTypeView::Int8 => "int"@,
        FfiTypeView::UInt16 => "int"@,
        FfiTypeView::Int16 => "int"@,
        FfiTypeView::UInt32 => "int"@,
        FfiTypeView::Int32 => "int"@,
        FfiTypeView::UInt64 => "int"@,
        FfiTypeView::Int64 => "int"@,
        FfiTypeView::Float32 => "double"@,
        FfiTypeView::Float64 => "double"@,
        FfiTypeView::RustArcPtr(_) => "Pointer<Void>"@,
        FfiTypeView::RustBuffer => "RustBuffer"@,
        FfiTypeView::Struct(name) => struct_class(upper_camel_case(name)),
        FfiTypeView::RustCallStatus => "RustCallStatus"@,
    }
}

/// The width annotation that a struct field of type `t` carries: scalars
/// have one, every other type has none.
pub open spec fn field_annotation_of(t: FfiTypeView) -> Option<Seq<char>> {
    match t {
        FfiTypeView::Int8 => Some("@Int8()"@),
        FfiTypeView::UInt8 => Some("@Uint8()"@),
        FfiTypeView::Int16 => Some("@Int16()"@),
        FfiTypeView::UInt16 => Some("@Uint16()"@),
        FfiTypeView::Int32 => Some("@Int32()"@),
        FfiTypeView::UInt32 => Some("@Uint32()"@),
        FfiTypeView::Int64 => Some("@Int64()"@),
        FfiTypeView::UInt64 => Some("@Uint64()"@),
        FfiTypeView::Float32 => Some("@Float()"@),
        FfiTypeView::Float64 => Some("@Double()"@),
        _ => None,
    }
}

/// View of an optional text.
pub open spec fn optional_text(t: Option<String>) -> Option<Seq<char>> {
    match t {
        Some(t) => Some(t@),
        None => None,
    }
}

impl FfiType {
    /// The `dart:ffi` native type that stands for this type in a native
    /// signature.
    pub fn native_label(&self) -> (label: String)
        ensures
            label@ == native_label_of(self@),
    {
        match self {
            FfiType::UInt8 => String::from_str("Uint8"),
            FfiType::Int8 => String::from_str("Int8"),
            FfiType::UInt16 => String::from_str("Uint16"),
            FfiType::Int16 => String::from_str("Int16"),
            FfiType::UInt32 => String::from_str("Uint32"),
            FfiType::Int32 => String::from_str("Int32"),
            FfiType::UInt64 => String::from_str("Uint64"),
            FfiType::Int64 => String::from_str("Int64"),
            FfiType::Float32 => String::from_str("Float"),
            FfiType::Float64 => String::from_str("Double"),
            FfiType::RustArcPtr(_) => String::from_str("Pointer<Void>"),
            FfiType::RustBuffer => String::from_str("RustBuffer"),
            FfiType::Struct(name) => ffi_struct_name(name.as_str()),
            FfiType::RustCallStatus => String::from_str("RustCallStatus"),
        }
    }

    /// The Dart type that a value of this type has on the Dart side of a
    /// native signature.
    pub fn dart_label(&self) -> (label: String)
        ensures
            label@ == dart_label_of(self@),
    {
        match self {
            FfiType::UInt8 => String::from_str("int"),
            FfiType::Int8 => String::from_str("int"),
            FfiType::UInt16 => String::from_str("int"),
            FfiType::Int16 => String::from_str("int"),
            FfiType::UInt32 => String::from_str("int"),
            FfiType::Int32 => String::from_str("int"),
            FfiType::UInt64 => String::from_str("int"),
            FfiType::Int64 => String::from_str("int"),
            FfiType::Float32 => String::from_str("double"),
            FfiType::Float64 => String::from_str("double"),
            FfiType::RustArcPtr(_) => String::from_str("Pointer<Void>"),
            FfiType::RustBuffer => String::from_str("RustBuffer"),
            FfiType::Struct(name) => ffi_struct_name(name.as_str()),
            FfiType::RustCallStatus => String::from_str("RustCallStatus"),
        }
    }
}

/// The width annotation of a struct field of type `field_type`, if it has
/// one.
pub fn foreign_future_field_annotation(field_type: &FfiType) -> (annotation: Option<String>)
    ensures
        optional_text(annotation) == field_annotation_of(field_type@),
{
    match field_type {
        FfiType::Int8 => Some(String::from_str("@Int8()")),
        FfiType::UInt8 => Some(String::from_str("@Uint8()")),
        FfiType::Int16 => Some(String::from_str("@Int16()")),
        FfiType::UInt16 => Some(String::from_str("@Uint16()")),
        FfiType::Int32 => Some(String::from_str("@Int32()")),
        FfiType::UInt32 => Some(String::from_str("@Uint32()")),
        FfiType::Int64 => Some(String::from_str("@Int64()")),
        FfiType::UInt64 => Some(String::from_str("@Uint64()")),
        FfiType::Float32 => Some(String::from_str("@Float()")),
        FfiType::Float64 => Some(String::from_str("@Double()")),
        _ => None,
    }
}

/// A named field of an ABI struct.
#[derive(Debug)]
pub struct FfiField {
    pub name: String,
    pub type_: FfiType,
}

/// Mathematical value of an [`FfiField`].
pub struct FfiFieldView {
    pub name: Seq<char>,
    pub type_: FfiTypeView,
}

impl View for FfiField {
    type V = FfiFieldView;

    open spec fn view(&self) -> FfiFieldView {
        FfiFieldView { name: self.name@, type_: self.type_@ }
    }
}

/// Views of a list of fields, in order.
pub open spec fn field_views(fields: Seq<FfiField>) -> Seq<FfiFieldView> {
    fields.map_values(|f: FfiField| f@)
}

/// An ABI struct: a name and fields whose order is the layout.
#[derive(Debug)]
pub struct FfiStruct {
    pub name: String,
    pub fields: Vec<FfiField>,
}

/// Mathematical value of an [`FfiStruct`].
pub struct FfiStructView {
    pub name: Seq<char>,
    pub fields: Seq<FfiFieldView>,
}

impl View for FfiStruct {
    type V = FfiStructView;

    open spec fn view(&self) -> FfiStructView {
        FfiStructView { name: self.name@, fields: field_views(self.fields@) }
    }
}

/// The struct that carries the result of an async call with the given
/// return type to its completion callback, where `shape` is the return
/// shape's name in UpperCamelCase. A call without a return value has no
/// `return_value` field: the status is the whole result.
pub open spec fn result_struct_for(shape: Seq<char>, return_type: Option<FfiTypeView>)
    -> FfiStructView {
    FfiStructView {
        name: "ForeignFutureStruct"@ + shape,
        fields: match return_type {
            Some(t) => seq![
                FfiFieldView { name: "return_value"@, type_: t },
                FfiFieldView { name: "call_status"@, type_: FfiTypeView::RustCallStatus },
            ],
            None => seq![
                FfiFieldView { name: "call_status"@, type_: FfiTypeView::RustCallStatus },
            ],
        },
    }
}

/// Builds the result struct of an async call from the return shape's name in
/// UpperCamelCase and the return type.
pub fn result_struct(shape: &str, return_ffi_type: Option<FfiType>) -> (s: FfiStruct)
    ensures
        s@ == result_struct_for(shape@, optional_ffi_view(return_ffi_type)),
{
    let name = crate::text::join2("ForeignFutureStruct", shape);
    let mut fields: Vec<FfiField> = Vec::new();
    match return_ffi_type {
        Some(t) => {
            fields.push(FfiField { name: String::from_str("return_value"), type_: t });
        },
        None => {},
    }
    fields.push(
        FfiField { name: String::from_str("call_status"), type_: FfiType::RustCallStatus },
    );
    let s = FfiStruct { name, fields };
    assert(s@.fields =~= result_struct_for(shape@, optional_ffi_view(return_ffi_type)).fields);
    s
}

/// The result struct of an async call with the given return type, or the
/// error for an ABI type that no call can return.
pub fn foreign_future_ffi_result_struct(return_ffi_type: Option<FfiType>) -> (r: Result<
    FfiStruct,
    GenerationError,
>)
    ensures
        r is Ok <==> (return_ffi_type matches Some(t) ==> is_return_type(t@)),
        r matches Ok(s) ==> s@ == result_struct_for(
            upper_camel_case(return_shape(optional_ffi_view(return_ffi_type))),
            optional_ffi_view(return_ffi_type),
        ),
        r matches Err(e) ==> (e matches GenerationError::UnsupportedReturnType { label }
            && label@ == native_label_of(return_ffi_type.unwrap()@)),
{
    match FfiType::return_type_name(return_ffi_type.as_ref()) {
        Some(name) => {
            let shape = heck_upper_camel_case(name.as_str());
            Ok(result_struct(shape.as_str(), return_ffi_type))
        },
        None => {
            let label = match &return_ffi_type {
                Some(t) => t.native_label(),
                None => String::new(),
            };
            Err(GenerationError::UnsupportedReturnType { label })
        },
    }
}

} // verus!
