//! Options of text inputs, and what an input keeps when a key is released.
use vstd::prelude::*;

verus! {

/// The kind of value an input takes.
#[derive(Debug, Clone, Copy, PartialEq, Eq, Structural)]
pub enum InputType {
    Text,
    Number,
}

impl Default for InputType {
    fn default() -> (r: InputType)
        ensures
            r == InputType::Text,
    {
        InputType::Text
    }
}

impl InputType {
    /// The name of the type as an HTML input knows it.
    pub fn to_string(&self) -> (r: String)
        ensures
            r@ == (match *self {
                InputType::Text => "text"@,
                InputType::Number => "number"@,
            }),
    {
        match self {
            InputType::Text => String::from_str("text"),
            InputType::Number => String::from_str("number"),
        }
    }
}

/// What the user may do with an input.
#[derive(Debug, Clone, Copy, PartialEq, Eq, Structural)]
pub enum InputPermission {
    WriteAndRead,
    ReadOnly,
    Disabled,
}

impl Default for InputPermission {
    fn default() -> (r: InputPermission)
        ensures
            r == InputPermission::WriteAndRead,
    {
        InputPermission::WriteAndRead
    }
}

/// The options of an input.
#[derive(Debug, Clone, Copy, PartialEq, Eq, Structural)]
pub struct UseInputOptions {
    pub input_type: InputType,
    pub permission: InputPermission,
}

impl Default for UseInputOptions {
    fn default() -> (r: UseInputOptions)
        ensures
            r == (UseInputOptions { input_type: InputType::Text, permission: InputPermission::WriteAndRead }),
    {
        UseInputOptions { input_type: InputType::default(), permission: InputPermission::default() }
    }
}

impl UseInputOptions {
    /// The default options with the given type.
    pub fn input_type(itype: InputType) -> (r: UseInputOptions)
        ensures
            r == (UseInputOptions { input_type: itype, permission: InputPermission::WriteAndRead }),
    {
        UseInputOptions { input_type: itype, permission: InputPermission::default() }
    }

    /// The default options with the given permission.
    pub fn permission(perm: InputPermission) -> (r: UseInputOptions)
        ensures
            r == (UseInputOptions { input_type: InputType::Text, permission: perm }),
    {
        UseInputOptions { input_type: InputType::default(), permission: perm }
    }
}

/// The value an input starts with: the value of the state it is bound to,
/// if it is bound to one, else the initial value it was given.
pub fn initial_input_value(value_state: Option<String>, init_value: String) -> (r: String)
    ensures
        value_state matches Some(v) ==> r@ == v@,
        value_state is None ==> r@ == init_value@,
{
    match value_state {
        Some(v) => v,
        None => init_value,
    }
}

/// The value an input holds once a key is released: what was typed where
/// the user may write, else the value it held.
pub fn use_input(current: String, typed: String, options: &UseInputOptions) -> (r: String)
    ensures
        options.permission == InputPermission::WriteAndRead ==> r@ == typed@,
        options.permission != InputPermission::WriteAndRead ==> r@ == current@,
{
    if options.permission == InputPermission::WriteAndRead {
        typed
    } else {
        current
    }
}

/// The value an input displays: none while it is disabled, else the value
/// it holds.
pub fn shown_input_value(value: &String, permission: InputPermission) -> (r: String)
    ensures
        permission == InputPermission::Disabled ==> r@.len() == 0,
        permission != InputPermission::Disabled ==> r@ == value@,
{
    if permission != InputPermission::Disabled {
        value.clone()
    } else {
        String::new()
    }
}

} // verus!
