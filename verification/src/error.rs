//! Errors that end a generation run.

use vstd::prelude::*;

verus! {

/// Why a generation run was aborted. A run that fails emits nothing.
#[derive(Debug, Clone, PartialEq, Eq)]
pub enum GenerationError {
    /// A type refers to a callback interface that the component interface
    /// does not define.
    UnknownCallbackInterface { name: String },
    /// An async completion was asked for an ABI type that no call can
    /// return. `label` is the Dart label of that type.
    UnsupportedReturnType { label: String },
}

/// Text of the diagnostic for an unknown callback interface called `name`.
pub open spec fn unknown_callback_message(name: Seq<char>) -> Seq<char> {
    "callback interface is not defined: "@ + name
}

/// Text of the diagnostic for an unsupported return type with that label.
pub open spec fn unsupported_return_message(label: Seq<char>) -> Seq<char> {
    "ABI type cannot be returned: "@ + label
}

impl GenerationError {
    /// The diagnostic, which names the offending item.
    pub fn message(&self) -> (text: String)
        ensures
            self matches GenerationError::UnknownCallbackInterface { name } ==> text@
                == unknown_callback_message(name@),
            self matches GenerationError::UnsupportedReturnType { label } ==> text@
                == unsupported_return_message(label@),
    {
        match self {
            GenerationError::UnknownCallbackInterface { name } => {
                let mut text = String::from_str("callback interface is not defined: ");
                text.append(name.as_str());
                text
            },
            GenerationError::UnsupportedReturnType { label } => {
                let mut text = String::from_str("ABI type cannot be returned: ");
                text.append(label.as_str());
                text
            },
        }
    }
}

} // verus!
