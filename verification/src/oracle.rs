//! Naming rules of the emitted Dart code.
//!
//! Identifiers are put into Dart's casing by the `heck` crate. What `heck`
//! returns is not restated here: each conversion has a name, and the
//! contracts of this crate speak of the converted text by that name.

use vstd::prelude::*;

verus! {

/// What `heck` returns as the UpperCamelCase form of `s`.
pub uninterp spec fn upper_camel_case(s: Seq<char>) -> Seq<char>;

/// What `heck` returns as the lowerCamelCase form of `s`.
pub uninterp spec fn lower_camel_case(s: Seq<char>) -> Seq<char>;

/// Calls `heck::ToUpperCamelCase::to_upper_camel_case` on `s`. The result
/// depends on the characters of `s` alone; the contract gives it its name and
/// claims nothing else of it.
#[verifier::external_body]
pub(crate) fn heck_upper_camel_case(s: &str) -> (converted: String)
    ensures
        converted@ == upper_camel_case(s@),
{
    heck::ToUpperCamelCase::to_upper_camel_case(s)
}

/// Calls `heck::ToLowerCamelCase::to_lower_camel_case` on `s`. The result
/// depends on the characters of `s` alone; the contract gives it its name and
/// claims nothing else of it.
#[verifier::external_body]
pub(crate) fn heck_lower_camel_case(s: &str) -> (converted: String)
    ensures
        converted@ == lower_camel_case(s@),
{
    heck::ToLowerCamelCase::to_lower_camel_case(s)
}

/// Name of the Dart class for the interface item called `nm`.
pub fn class_name(nm: &str) -> (name: String)
    ensures
        name@ == upper_camel_case(nm@),
{
    heck_upper_camel_case(nm)
}

/// Name of the Dart function or method for the item called `nm`.
pub fn fn_name(nm: &str) -> (name: String)
    ensures
        name@ == lower_camel_case(nm@),
{
    heck_lower_camel_case(nm)
}

/// Name of the Dart variable, parameter or field for the item called `nm`.
pub fn var_name(nm: &str) -> (name: String)
    ensures
        name@ == lower_camel_case(nm@),
{
    heck_lower_camel_case(nm)
}

/// Name of the Dart class of an ABI struct, given the struct's name in
/// UpperCamelCase.
pub open spec fn struct_class(camel: Seq<char>) -> Seq<char> {
    "Uniffi"@ + camel
}

/// Builds the Dart class name of an ABI struct from the struct's name in
/// UpperCamelCase.
pub fn ffi_struct_class(camel: &str) -> (name: String)
    ensures
        name@ == struct_class(camel@),
{
    let mut name = String::from_str("Uniffi");
    name.append(camel);
    name
}

/// Name of the Dart class for the ABI struct called `nm`.
pub fn ffi_struct_name(nm: &str) -> (name: String)
    ensures
        name@ == struct_class(upper_camel_case(nm@)),
{
    let camel = heck_upper_camel_case(nm);
    ffi_struct_class(camel.as_str())
}

} // verus!
