//! A labelled text field with a required flag and a validation state.
use vstd::prelude::*;
use crate::keys::Key;
use crate::text::{is_blank, is_blank_text};
use crate::text_input::{TextInput, text_key_effect};

verus! {

/// Where a field's validation stands.
#[derive(Debug, Clone)]
pub enum ValidationState {
    /// Not validated yet.
    Idle,
    /// A validation is running.
    Validating,
    /// Valid, with an optional note.
    Valid(Option<String>),
    /// Invalid, with the reason.
    Invalid(String),
}

pub open spec fn spec_icon(s: ValidationState) -> Seq<char> {
    match s {
        ValidationState::Idle => ""@,
        ValidationState::Validating => "⋯"@,
        ValidationState::Valid(_) => "✓"@,
        ValidationState::Invalid(_) => "✗"@,
    }
}

impl ValidationState {
    /// The mark shown beside the label.
    pub fn icon(&self) -> (r: &'static str)
        ensures
            r@ == spec_icon(*self),
    {
        match self {
            ValidationState::Idle => "",
            ValidationState::Validating => "⋯",
            ValidationState::Valid(_) => "✓",
            ValidationState::Invalid(_) => "✗",
        }
    }

    /// The note of a valid state or the reason of an invalid one.
    pub fn message(&self) -> (r: Option<&str>)
        ensures
            match *self {
                ValidationState::Valid(Some(m)) => r matches Some(t) && t@ == m@,
                ValidationState::Invalid(m) => r matches Some(t) && t@ == m@,
                _ => r is None,
            },
    {
        match self {
            ValidationState::Valid(Some(m)) => Some(m.as_str()),
            ValidationState::Invalid(m) => Some(m.as_str()),
            _ => None,
        }
    }
}

/// The reason given when a required field is left empty.
pub open spec fn required_message() -> Seq<char> {
    "Field is required"@
}

/// A form field: label, input, whether it is required, its validation state,
/// focus, and an optional help line.
#[derive(Debug, Clone)]
pub struct FormField {
    pub label: String,
    pub input: TextInput,
    pub required: bool,
    pub validation_state: ValidationState,
    pub is_focused: bool,
    pub help_text: Option<String>,
}

impl FormField {
    pub fn new(label: &str) -> (r: FormField)
        ensures
            r.label@ == label@,
            r.input.wf(),
            r.input.value@.len() == 0,
            !r.input.is_focused,
            !r.required,
            r.validation_state is Idle,
            !r.is_focused,
            r.help_text is None,
    {
        FormField {
            label: String::from_str(label),
            input: TextInput::new(),
            required: false,
            validation_state: ValidationState::Idle,
            is_focused: false,
            help_text: None,
        }
    }

    pub fn required(self) -> (r: FormField)
        ensures
            r == (FormField { required: true, ..self }),
    {
        FormField { required: true, ..self }
    }

    pub fn with_help(self, text: &str) -> (r: FormField)
        ensures
            r == (FormField { help_text: r.help_text, ..self }),
            r.help_text matches Some(h) && h@ == text@,
    {
        FormField { help_text: Some(String::from_str(text)), ..self }
    }

    pub fn with_input(self, input: TextInput) -> (r: FormField)
        ensures
            r == (FormField { input, ..self }),
    {
        FormField { input, ..self }
    }

    /// Focuses or unfocuses the field and its input together.
    pub fn set_focused(&mut self, focused: bool)
        ensures
            final(self).is_focused == focused,
            final(self).input == (TextInput { is_focused: focused, ..old(self).input }),
            final(self).label == old(self).label,
            final(self).required == old(self).required,
            final(self).validation_state == old(self).validation_state,
            final(self).help_text == old(self).help_text,
    {
        self.is_focused = focused;
        self.input.set_focused(focused);
    }

    /// A required field whose value is blank is invalid; anything else is valid.
    pub fn validate_sync(&mut self) -> (r: Result<(), String>)
        ensures
            final(self).input == old(self).input,
            final(self).label == old(self).label,
            final(self).required == old(self).required,
            final(self).is_focused == old(self).is_focused,
            final(self).help_text == old(self).help_text,
            (old(self).required && is_blank_text(old(self).input.value@)) ==> (r matches Err(m) && m@ == required_message()),
            (old(self).required && is_blank_text(old(self).input.value@)) ==> (final(self).validation_state matches ValidationState::Invalid(v) && v@ == required_message()),
            !(old(self).required && is_blank_text(old(self).input.value@)) ==> r is Ok,
            !(old(self).required && is_blank_text(old(self).input.value@)) ==> (final(self).validation_state matches ValidationState::Valid(None)),
    {
        if self.required && is_blank(self.input.value.as_str()) {
            self.validation_state = ValidationState::Invalid(String::from_str("Field is required"));
            return Err(String::from_str("Field is required"));
        }
        self.validation_state = ValidationState::Valid(None);
        Ok(())
    }

    /// Passes the key to the input; an invalid state is cleared first.
    pub fn handle_key(&mut self, key: Key) -> (r: bool)
        requires
            old(self).input.wf(),
        ensures
            final(self).input.wf(),
            (final(self).input.value@, final(self).input.cursor_pos as nat, r) == text_key_effect(
                old(self).input.value@,
                old(self).input.cursor_pos as nat,
                old(self).input.max_length,
                old(self).input.validator,
                key,
            ),
            old(self).validation_state is Invalid ==> final(self).validation_state is Idle,
            !(old(self).validation_state is Invalid) ==> final(self).validation_state == old(self).validation_state,
    {
        if let ValidationState::Invalid(_) = self.validation_state {
            self.validation_state = ValidationState::Idle;
        }
        self.input.handle_key(key)
    }

    pub fn value(&self) -> (r: &str)
        ensures
            r@ == self.input.value@,
    {
        self.input.value()
    }

    pub fn is_valid(&self) -> (r: bool)
        ensures
            r == (self.validation_state is Valid),
    {
        match self.validation_state {
            ValidationState::Valid(_) => true,
            _ => false,
        }
    }

    pub fn is_empty(&self) -> (r: bool)
        ensures
            r == (self.input.value@.len() == 0),
    {
        self.input.is_empty()
    }
}

} // verus!
