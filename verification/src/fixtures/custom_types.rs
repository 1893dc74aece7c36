//! A sample with a custom type: a handle that wraps a 64-bit integer.

use vstd::prelude::*;
use vstd::std_specs::convert::FromSpecImpl;
use crate::text::{join3, signed_decimal, signed_decimal_string};

verus! {

/// A custom type around `i64`.
#[derive(Debug, Clone, PartialEq, Eq, Structural)]
pub struct Handle(pub i64);

impl From<i64> for Handle {
    fn from(val: i64) -> (handle: Self) {
        Handle(val)
    }
}

impl FromSpecImpl<i64> for Handle {
    open spec fn obeys_from_spec() -> bool {
        true
    }

    open spec fn from_spec(val: i64) -> Self {
        Handle(val)
    }
}

impl From<Handle> for i64 {
    fn from(obj: Handle) -> (val: i64) {
        obj.0
    }
}

impl FromSpecImpl<Handle> for i64 {
    open spec fn obeys_from_spec() -> bool {
        true
    }

    open spec fn from_spec(obj: Handle) -> i64 {
        obj.0
    }
}

impl Handle {
    /// The text of the handle: `Handle(` and `)` around its number.
    pub open spec fn text(self) -> Seq<char> {
        "Handle("@ + signed_decimal(self.0 as int) + ")"@
    }

    /// Writes the handle as text.
    pub fn to_string(&self) -> (s: String)
        ensures
            s@ == self.text(),
    {
        let digits = signed_decimal_string(self.0);
        join3("Handle(", digits.as_str(), ")")
    }
}

/// A record with a field of the custom type.
#[derive(Debug, Clone, PartialEq, Eq, Structural)]
pub struct CustomTypesDemo {
    pub handle: Handle,
}

/// The handle of the demo record that is made up where none is given.
pub open spec fn default_handle() -> Handle {
    Handle(123)
}

/// Hands the given record back, or the record with the handle 123 where
/// none is given.
pub fn get_custom_types_demo(v: Option<CustomTypesDemo>) -> (demo: CustomTypesDemo)
    ensures
        demo == match v {
            Some(given) => given,
            None => (CustomTypesDemo { handle: default_handle() }),
        },
{
    match v {
        Some(given) => given,
        None => CustomTypesDemo { handle: Handle(123) },
    }
}

} // verus!
