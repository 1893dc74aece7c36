//! The component interface that bindings are generated from: interface types,
//! methods, callback interfaces, and the low-level types of the native ABI.

use vstd::prelude::*;

verus! {

/// The builtin scalar and string kinds.
#[derive(Debug, Clone, Copy, PartialEq, Eq, Structural)]
pub enum Primitive {
    UInt8,
    Int8,
    UInt16,
    Int16,
    UInt32,
    Int32,
    UInt64,
    Int64,
    Float32,
    Float64,
    Boolean,
    String,
    Bytes,
    Timestamp,
    Duration,
}

/// A type of the interface. Named types refer to their definition by name.
#[derive(Debug)]
pub enum InterfaceType {
    Primitive(Primitive),
    Record { name: String },
    Enum { name: String },
    Object { name: String },
    CallbackInterface { name: String },
    Custom { name: String, module: String, builtin: Box<InterfaceType> },
    Optional { inner: Box<InterfaceType> },
    Sequence { inner: Box<InterfaceType> },
    Mapping { key: Box<InterfaceType>, value: Box<InterfaceType> },
}

/// Mathematical value of an [`InterfaceType`]: its structure, with names as
/// character sequences.
pub enum TypeView {
    Primitive(Primitive),
    Record { name: Seq<char> },
    Enum { name: Seq<char> },
    Object { name: Seq<char> },
    CallbackInterface { name: Seq<char> },
    Custom { name: Seq<char>, module: Seq<char>, builtin: Box<TypeView> },
    Optional { inner: Box<TypeView> },
    Sequence { inner: Box<TypeView> },
    Mapping { key: Box<TypeView>, value: Box<TypeView> },
}

/// The structure of `t`.
pub open spec fn type_view(t: InterfaceType) -> TypeView
    decreases t,
{
    match t {
        InterfaceType::Primitive(p) => TypeView::Primitive(p),
        InterfaceType::Record { name } => TypeView::Record { name: name@ },
        InterfaceType::Enum { name } => TypeView::Enum { name: name@ },
        InterfaceType::Object { name } => TypeView::Object { name: name@ },
        InterfaceType::CallbackInterface { name } => TypeView::CallbackInterface { name: name@ },
        InterfaceType::Custom { name, module, builtin } => TypeView::Custom {
            name: name@,
            module: module@,
            builtin: Box::new(type_view(*builtin)),
        },
        InterfaceType::Optional { inner } => TypeView::Optional {
            inner: Box::new(type_view(*inner)),
        },
        InterfaceType::Sequence { inner } => TypeView::Sequence {
            inner: Box::new(type_view(*inner)),
        },
        InterfaceType::Mapping { key, value } => TypeView::Mapping {
            key: Box::new(type_view(*key)),
            value: Box::new(type_view(*value)),
        },
    }
}

impl View for InterfaceType {
    type V = TypeView;

    open spec fn view(&self) -> TypeView {
        type_view(*self)
    }
}

impl Clone for InterfaceType {
    fn clone(&self) -> (copy: Self)
        ensures
            copy@ == self@,
        decreases self,
    {
        match self {
            InterfaceType::Primitive(p) => InterfaceType::Primitive(*p),
            InterfaceType::Record { name } => InterfaceType::Record { name: name.clone() },
            InterfaceType::Enum { name } => InterfaceType::Enum { name: name.clone() },
            InterfaceType::Object { name } => InterfaceType::Object { name: name.clone() },
            InterfaceType::CallbackInterface { name } => InterfaceType::CallbackInterface {
                name: name.clone(),
            },
            InterfaceType::Custom { name, module, builtin } => InterfaceType::Custom {
                name: name.clone(),
                module: module.clone(),
                builtin: Box::new((**builtin).clone()),
            },
            InterfaceType::Optional { inner } => InterfaceType::Optional {
                inner: Box::new((**inner).clone()),
            },
            InterfaceType::Sequence { inner } => InterfaceType::Sequence {
                inner: Box::new((**inner).clone()),
            },
            InterfaceType::Mapping { key, value } => InterfaceType::Mapping {
                key: Box::new((**key).clone()),
                value: Box::new((**value).clone()),
            },
        }
    }
}

/// View of an optional type.
pub open spec fn optional_type_view(t: Option<InterfaceType>) -> Option<TypeView> {
    match t {
        Some(t) => Some(t@),
        None => None,
    }
}

/// A named, typed argument of a method.
#[derive(Debug, Clone)]
pub struct Argument {
    pub name: String,
    pub type_: InterfaceType,
}

/// Mathematical value of an [`Argument`].
pub struct ArgumentView {
    pub name: Seq<char>,
    pub type_: TypeView,
}

impl View for Argument {
    type V = ArgumentView;

    open spec fn view(&self) -> ArgumentView {
        ArgumentView { name: self.name@, type_: self.type_@ }
    }
}

/// Views of a list of arguments, in order.
pub open spec fn argument_views(arguments: Seq<Argument>) -> Seq<ArgumentView> {
    arguments.map_values(|a: Argument| a@)
}

/// A method of a callback interface. An async method without a return type
/// is legal: its completion carries a status only.
#[derive(Debug, Clone)]
pub struct Method {
    pub name: String,
    pub arguments: Vec<Argument>,
    pub return_type: Option<InterfaceType>,
    pub is_async: bool,
    pub throws: Option<InterfaceType>,
}

/// Mathematical value of a [`Method`].
pub struct MethodView {
    pub name: Seq<char>,
    pub arguments: Seq<ArgumentView>,
    pub return_type: Option<TypeView>,
    pub is_async: bool,
    pub throws: Option<TypeView>,
}

impl View for Method {
    type V = MethodView;

    open spec fn view(&self) -> MethodView {
        MethodView {
            name: self.name@,
            arguments: argument_views(self.arguments@),
            return_type: optional_type_view(self.return_type),
            is_async: self.is_async,
            throws: optional_type_view(self.throws),
        }
    }
}

/// Views of a list of methods, in order.
pub open spec fn method_views(methods: Seq<Method>) -> Seq<MethodView> {
    methods.map_values(|m: Method| m@)
}

/// View of an optional name.
pub open spec fn optional_name(name: Option<String>) -> Option<Seq<char>> {
    match name {
        Some(name) => Some(name@),
        None => None,
    }
}

/// An interface that is implemented in Dart and called from native code.
#[derive(Debug, Clone)]
pub struct CallbackInterface {
    pub name: String,
    /// The namespace of the module that declares the interface, where it is
    /// known.
    pub namespace: Option<String>,
    pub methods: Vec<Method>,
}

/// Mathematical value of a [`CallbackInterface`].
pub struct CallbackInterfaceView {
    pub name: Seq<char>,
    pub namespace: Option<Seq<char>>,
    pub methods: Seq<MethodView>,
}

impl View for CallbackInterface {
    type V = CallbackInterfaceView;

    open spec fn view(&self) -> CallbackInterfaceView {
        CallbackInterfaceView {
            name: self.name@,
            namespace: optional_name(self.namespace),
            methods: method_views(self.methods@),
        }
    }
}

/// The whole interface of one native library.
#[derive(Debug, Clone)]
pub struct ComponentInterface {
    pub namespace: String,
    /// The module name that the symbols of the native library carry, where
    /// it could be inferred.
    pub ffi_module: Option<String>,
    pub callback_interfaces: Vec<CallbackInterface>,
}

/// Mathematical value of a [`ComponentInterface`].
pub struct ComponentInterfaceView {
    pub namespace: Seq<char>,
    pub ffi_module: Option<Seq<char>>,
    pub callback_interfaces: Seq<CallbackInterfaceView>,
}

impl View for ComponentInterface {
    type V = ComponentInterfaceView;

    open spec fn view(&self) -> ComponentInterfaceView {
        ComponentInterfaceView {
            namespace: self.namespace@,
            ffi_module: optional_name(self.ffi_module),
            callback_interfaces: self.callback_interfaces@.map_values(|c: CallbackInterface| c@),
        }
    }
}

impl ComponentInterfaceView {
    /// Position of the first callback interface called `name`, where one is
    /// defined.
    pub open spec fn position(self, name: Seq<char>) -> int {
        choose|i: int|
            0 <= i < self.callback_interfaces.len() && self.callback_interfaces[i].name == name
                && forall|j: int| 0 <= j < i ==> self.callback_interfaces[j].name != name
    }

    /// The definition of the callback interface called `name`: the first one
    /// in declaration order, where one is defined.
    pub open spec fn definition(self, name: Seq<char>) -> CallbackInterfaceView {
        self.callback_interfaces[self.position(name)]
    }

    /// The module name in the native symbols of a callback interface: the
    /// inferred module of the library; failing that, the namespace of the
    /// module that declares the interface; failing that, the namespace of
    /// the component interface.
    pub open spec fn ffi_module_for(self, callback: CallbackInterfaceView) -> Seq<char> {
        match self.ffi_module {
            Some(module) => module,
            None => match callback.namespace {
                Some(namespace) => namespace,
                None => self.namespace,
            },
        }
    }

    /// Every callback interface has a name of its own.
    pub open spec fn names_unique(self) -> bool {
        forall|i: int, j: int|
            0 <= i < j < self.callback_interfaces.len() ==> self.callback_interfaces[i].name
                != self.callback_interfaces[j].name
    }

    /// True when a callback interface called `name` is defined.
    pub open spec fn defines(self, name: Seq<char>) -> bool {
        exists|i: int|
            0 <= i < self.callback_interfaces.len() && self.callback_interfaces[i].name == name
    }
}

/// In an interface whose callback interfaces have names of their own, the
/// definition of a name is the one callback interface that carries it.
pub proof fn lemma_unique_definition(ci: ComponentInterfaceView, i: int)
    requires
        ci.names_unique(),
        0 <= i < ci.callback_interfaces.len(),
    ensures
        ci.defines(ci.callback_interfaces[i].name),
        ci.position(ci.callback_interfaces[i].name) == i,
        ci.definition(ci.callback_interfaces[i].name) == ci.callback_interfaces[i],
{
    let name = ci.callback_interfaces[i].name;
    assert forall|j: int| 0 <= j < i implies ci.callback_interfaces[j].name != name by {}
    let chosen = ci.position(name);
    assert(0 <= chosen < ci.callback_interfaces.len() && ci.callback_interfaces[chosen].name
        == name);
    if chosen < i {
    } else if i < chosen {
    }
}

impl ComponentInterface {
    /// The module name in the native symbols of `callback`.
    pub fn ffi_module_for(&self, callback: &CallbackInterface) -> (module: String)
        ensures
            module@ == self@.ffi_module_for(callback@),
    {
        match &self.ffi_module {
            Some(module) => module.clone(),
            None => match &callback.namespace {
                Some(namespace) => namespace.clone(),
                None => self.namespace.clone(),
            },
        }
    }

    /// The definition of the callback interface called `name`: the first one
    /// in declaration order, or `None` when the interface defines none.
    pub fn get_callback_interface_definition(&self, name: &str) -> (found: Option<
        &CallbackInterface,
    >)
        ensures
            found is Some <==> self@.defines(name@),
            found matches Some(c) ==> c@ == self@.definition(name@) && c@.name == name@,
    {
        let wanted = String::from_str(name);
        let n = self.callback_interfaces.len();
        let mut i: usize = 0;
        while i < n
            invariant
                0 <= i <= n,
                n == self.callback_interfaces@.len(),
                wanted@ == name@,
                forall|j: int| 0 <= j < i ==> self@.callback_interfaces[j].name != name@,
            decreases n - i,
        {
            let c = &self.callback_interfaces[i];
            assert(self@.callback_interfaces[i as int] == c@);
            if c.name == wanted {
                proof {
                    let chosen = self@.position(name@);
                    assert(0 <= chosen < n && self@.callback_interfaces[chosen].name == name@
                        && forall|j: int|
                        0 <= j < chosen ==> self@.callback_interfaces[j].name != name@);
                    assert(chosen == i);
                }
                return Some(c);
            }
            i += 1;
        }
        None
    }
}

} // verus!
