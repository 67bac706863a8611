//! The builder-style description of one text input field: what the
//! rendering layer hands over when it creates the field's observable
//! cell and validation machine.

use vstd::prelude::*;
use vstd::string::StringExecFns;

verus! {

#[derive(Clone, Copy, Debug, PartialEq, Eq, Structural)]
pub enum InputTextType {
    Underline,
    Outline,
}

impl Default for InputTextType {
    fn default() -> (t: Self)
        ensures
            t is Underline,
    {
        InputTextType::Underline
    }
}

/// Description of a text input: label, initial value, flags, and the
/// rendering variant. The field's observable cell is created from
/// `value` by the rendering layer.
#[derive(Clone, Debug, PartialEq, Eq)]
pub struct InputTextState {
    pub label: String,
    pub value: String,
    pub required: bool,
    pub disabled: bool,
    pub input_type: InputTextType,
}

/// Abstract value of an [`InputTextState`].
pub struct InputTextModel {
    pub label: Seq<char>,
    pub value: Seq<char>,
    pub required: bool,
    pub disabled: bool,
    pub input_type: InputTextType,
}

impl View for InputTextState {
    type V = InputTextModel;

    open spec fn view(&self) -> InputTextModel {
        InputTextModel {
            label: self.label@,
            value: self.value@,
            required: self.required,
            disabled: self.disabled,
            input_type: self.input_type,
        }
    }
}

impl Default for InputTextState {
    fn default() -> (s: Self)
        ensures
            s@.label.len() == 0,
            s@.value.len() == 0,
            !s@.required,
            !s@.disabled,
            s@.input_type is Underline,
    {
        InputTextState {
            label: String::new(),
            value: String::new(),
            required: false,
            disabled: false,
            input_type: InputTextType::Underline,
        }
    }
}

impl InputTextState {
    pub fn new(label: &str) -> (s: Self)
        ensures
            s@.label == label@,
            s@.value.len() == 0,
            !s@.required,
            !s@.disabled,
            s@.input_type is Underline,
    {
        InputTextState { label: String::from_str(label), ..Default::default() }
    }

    pub fn with_input_type(self, input_type: InputTextType) -> (s: Self)
        ensures
            s@ == (InputTextModel { input_type, ..self@ }),
    {
        Self { input_type, ..self }
    }

    pub fn with_disabled(self, disabled: bool) -> (s: Self)
        ensures
            s@ == (InputTextModel { disabled, ..self@ }),
    {
        Self { disabled, ..self }
    }

    pub fn with_required(self, required: bool) -> (s: Self)
        ensures
            s@ == (InputTextModel { required, ..self@ }),
    {
        Self { required, ..self }
    }

    pub fn with_value(self, value: &str) -> (s: Self)
        ensures
            s@ == (InputTextModel { value: value@, ..self@ }),
    {
        Self { value: String::from_str(value), ..self }
    }

    pub fn with_label(self, label: &str) -> (s: Self)
        ensures
            s@ == (InputTextModel { label: label@, ..self@ }),
    {
        Self { label: String::from_str(label), ..self }
    }
}

} // verus!
