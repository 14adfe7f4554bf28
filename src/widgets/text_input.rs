//! A labelled form input field.
use vstd::prelude::*;

verus! {

/// An input field: its label, its value, whether it has focus, and the
/// widths of the label and of the input box.
pub struct TextInput<'a> {
    pub label: &'a str,
    pub value: &'a str,
    pub focused: bool,
    pub label_width: u16,
    pub input_width: u16,
}

impl<'a> TextInput<'a> {
    /// An unfocused field with a 12-column label and a 50-column box.
    pub fn new(label: &'a str, value: &'a str) -> (r: TextInput<'a>)
        ensures
            r.label == label,
            r.value == value,
            !r.focused,
            r.label_width == 12,
            r.input_width == 50,
    {
        TextInput { label, value, focused: false, label_width: 12, input_width: 50 }
    }

    pub fn focused(self, focused: bool) -> (r: TextInput<'a>)
        ensures
            r == (TextInput { focused, ..self }),
    {
        TextInput { focused, ..self }
    }

    pub fn label_width(self, width: u16) -> (r: TextInput<'a>)
        ensures
            r == (TextInput { label_width: width, ..self }),
    {
        TextInput { label_width: width, ..self }
    }

    pub fn input_width(self, width: u16) -> (r: TextInput<'a>)
        ensures
            r == (TextInput { input_width: width, ..self }),
    {
        TextInput { input_width: width, ..self }
    }
}

} // verus!
