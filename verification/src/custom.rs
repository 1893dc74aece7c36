//! Code for custom types: named wrappers around a builtin type.

use vstd::prelude::*;
use crate::emit::{custom_type, emit_custom_type};
use crate::ir::{type_view, InterfaceType, TypeView};
use crate::oracle::{class_name, upper_camel_case};
use crate::registry::Registry;
use crate::resolve::{resolve, resolved, TypeInfoView};
use crate::text::{lemma_enclosed_text_injective, line, Code, LineView};

verus! {

/// A custom type, as the generator sees it: its name, the module that
/// declares it, and the builtin type that represents it.
#[derive(Debug)]
pub struct CustomCodeType {
    name: String,
    module: String,
    builtin_type: Box<InterfaceType>,
}

/// Mathematical value of a [`CustomCodeType`].
pub struct CustomCodeTypeView {
    pub name: Seq<char>,
    pub module: Seq<char>,
    pub builtin: TypeView,
}

impl CustomCodeTypeView {
    /// The interface type of the custom type.
    pub open spec fn as_type(self) -> TypeView {
        TypeView::Custom { name: self.name, module: self.module, builtin: Box::new(self.builtin) }
    }

    /// The names that the custom type resolves to.
    pub open spec fn info(self) -> TypeInfoView {
        resolved(self.as_type())
    }

    /// The code that rendering emits in a run that had emitted `seen`
    /// before: the definition, or nothing when the run has it already.
    pub open spec fn rendered(self, seen: Set<Seq<char>>) -> Seq<LineView> {
        if seen.contains(self.info().canonical_name) {
            Seq::empty()
        } else {
            custom_type(self.info().label, self.info().codec_name, resolved(self.builtin))
        }
    }

    /// The names that the run has emitted after rendering.
    pub open spec fn recorded(self, seen: Set<Seq<char>>) -> Set<Seq<char>> {
        seen.insert(self.info().canonical_name)
    }
}

impl View for CustomCodeType {
    type V = CustomCodeTypeView;

    closed spec fn view(&self) -> CustomCodeTypeView {
        CustomCodeTypeView {
            name: self.name@,
            module: self.module@,
            builtin: type_view(*self.builtin_type),
        }
    }
}

impl CustomCodeType {
    /// The custom type called `name`, declared in `module` and represented
    /// by `builtin_type`.
    pub fn new(name: String, module: String, builtin_type: Box<InterfaceType>) -> (code_type: Self)
        ensures
            code_type@ == (CustomCodeTypeView {
                name: name@,
                module: module@,
                builtin: type_view(*builtin_type),
            }),
    {
        CustomCodeType { name, module, builtin_type }
    }

    /// The interface type of the custom type.
    pub fn as_type(&self) -> (t: InterfaceType)
        ensures
            t@ == self@.as_type(),
    {
        InterfaceType::Custom {
            name: self.name.clone(),
            module: self.module.clone(),
            builtin: Box::new((*self.builtin_type).clone()),
        }
    }

    /// The Dart class of the custom type.
    pub fn type_label(&self) -> (label: String)
        ensures
            label@ == upper_camel_case(self@.name),
            label@ == self@.info().label,
    {
        class_name(self.name.as_str())
    }

    /// Emits the code of the custom type, once per run: a second rendering
    /// in the same run emits nothing.
    pub fn render_type_helper(&self, registry: &mut Registry) -> (code: Code)
        ensures
            code@ == self@.rendered(old(registry)@),
            final(registry)@ == self@.recorded(old(registry)@),
            final(registry).requested() == old(registry).requested(),
    {
        let info = resolve(&self.as_type());
        if registry.include_once_check(&info) {
            return Code::new();
        }
        let builtin = resolve(&*self.builtin_type);
        emit_custom_type(info.label.as_str(), info.codec_name.as_str(), &builtin)
    }
}

/// A custom type is defined once per run: rendering it again, in a run that
/// has rendered it, emits nothing and records nothing new.
pub proof fn lemma_custom_type_rendered_once(c: CustomCodeTypeView, seen: Set<Seq<char>>)
    ensures
        c.rendered(c.recorded(seen)) == Seq::<LineView>::empty(),
        c.recorded(c.recorded(seen)) == c.recorded(seen),
{
    assert(c.recorded(c.recorded(seen)) =~= c.recorded(seen));
}

/// Custom types with different class names are kept apart, also where they
/// wrap the same builtin: they have different keys, so neither suppresses
/// the other, and their definitions differ.
pub proof fn lemma_distinct_custom_types(
    a: CustomCodeTypeView,
    b: CustomCodeTypeView,
    seen: Set<Seq<char>>,
)
    requires
        a.info().label != b.info().label,
    ensures
        a.info().canonical_name != b.info().canonical_name,
        custom_type(a.info().label, a.info().codec_name, resolved(a.builtin)) != custom_type(
            b.info().label,
            b.info().codec_name,
            resolved(b.builtin),
        ),
        !seen.contains(b.info().canonical_name) ==> b.rendered(a.recorded(seen)) == custom_type(
            b.info().label,
            b.info().codec_name,
            resolved(b.builtin),
        ),
{
    let empty = Seq::<char>::empty();
    if a.info().canonical_name == b.info().canonical_name {
        assert("Type"@ + a.info().label + empty =~= a.info().canonical_name);
        assert("Type"@ + b.info().label + empty =~= b.info().canonical_name);
        lemma_enclosed_text_injective("Type"@, a.info().label, b.info().label, empty);
    }
    let first = custom_type(a.info().label, a.info().codec_name, resolved(a.builtin));
    let second = custom_type(b.info().label, b.info().codec_name, resolved(b.builtin));
    if first == second {
        assert(first[0] == line(0, "class "@ + a.info().label + " {"@));
        assert(second[0] == line(0, "class "@ + b.info().label + " {"@));
        lemma_enclosed_text_injective("class "@, a.info().label, b.info().label, " {"@);
    }
}

} // verus!
