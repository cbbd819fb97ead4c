//! A single-line text input with a cursor, a length limit and a character rule.
use vstd::prelude::*;
use crate::keys::Key;
use crate::text::{alphanumeric, char_is_alphanumeric, is_ascii_digit, push_char};

verus! {

/// Which characters an input accepts.
#[derive(Debug, Clone, Copy, PartialEq, Eq, Structural)]
pub enum CharRule {
    /// Letters, digits and `_`.
    Alphanumeric,
    /// ASCII digits.
    Digit,
    /// Letters, digits and `:/.-_?&=`.
    Url,
    /// Letters, digits and `_`, as in a feed name.
    Subreddit,
}

pub open spec fn url_punctuation(c: char) -> bool {
    c == ':' || c == '/' || c == '.' || c == '-' || c == '_' || c == '?' || c == '&' || c == '='
}

pub open spec fn rule_accepts(rule: CharRule, c: char) -> bool {
    match rule {
        CharRule::Alphanumeric => alphanumeric(c) || c == '_',
        CharRule::Digit => is_ascii_digit(c),
        CharRule::Url => alphanumeric(c) || url_punctuation(c),
        CharRule::Subreddit => alphanumeric(c) || c == '_',
    }
}

/// Accepts alphanumeric characters and underscores.
pub fn alphanumeric_validator(c: char) -> (r: bool)
    ensures
        r == rule_accepts(CharRule::Alphanumeric, c),
{
    char_is_alphanumeric(c) || c == '_'
}

/// Accepts only ASCII digits.
pub fn digit_validator(c: char) -> (r: bool)
    ensures
        r == rule_accepts(CharRule::Digit, c),
{
    '0' <= c && c <= '9'
}

/// Accepts URL-safe characters.
pub fn url_validator(c: char) -> (r: bool)
    ensures
        r == rule_accepts(CharRule::Url, c),
{
    char_is_alphanumeric(c) || c == ':' || c == '/' || c == '.' || c == '-' || c == '_' || c == '?' || c == '&'
        || c == '='
}

/// Accepts feed-name characters: alphanumeric and underscore.
pub fn subreddit_validator(c: char) -> (r: bool)
    ensures
        r == rule_accepts(CharRule::Subreddit, c),
{
    char_is_alphanumeric(c) || c == '_'
}

impl CharRule {
    pub fn accepts(&self, c: char) -> (r: bool)
        ensures
            r == rule_accepts(*self, c),
    {
        match self {
            CharRule::Alphanumeric => alphanumeric_validator(c),
            CharRule::Digit => digit_validator(c),
            CharRule::Url => url_validator(c),
            CharRule::Subreddit => subreddit_validator(c),
        }
    }
}

/// A text input: its value, a placeholder shown while empty, an optional
/// length limit and character rule, the cursor position (in characters) and focus.
#[derive(Debug, Clone)]
pub struct TextInput {
    pub value: String,
    pub placeholder: String,
    pub max_length: Option<usize>,
    pub validator: Option<CharRule>,
    pub cursor_pos: usize,
    pub is_focused: bool,
}

/// Whether the input's rule, if any, accepts the character.
pub open spec fn input_accepts(validator: Option<CharRule>, c: char) -> bool {
    match validator {
        Some(rule) => rule_accepts(rule, c),
        None => true,
    }
}

/// Whether one more character fits under the length limit (and, without a
/// limit, within the largest size a length can have).
pub open spec fn has_room(max_length: Option<usize>, len: nat) -> bool {
    match max_length {
        Some(m) => len < m,
        None => len < usize::MAX,
    }
}

/// The effect of a key on (value, cursor): the new value, the new cursor, and
/// whether anything changed.
pub open spec fn text_key_effect(
    value: Seq<char>,
    cursor: nat,
    max_length: Option<usize>,
    validator: Option<CharRule>,
    key: Key,
) -> (Seq<char>, nat, bool) {
    match key {
        Key::Char(c) => if input_accepts(validator, c) && has_room(max_length, value.len()) {
            (value.subrange(0, cursor as int).push(c) + value.subrange(cursor as int, value.len() as int), cursor + 1, true)
        } else {
            (value, cursor, false)
        },
        Key::Backspace => if cursor > 0 {
            (value.subrange(0, cursor as int - 1) + value.subrange(cursor as int, value.len() as int), (cursor - 1) as nat, true)
        } else {
            (value, cursor, false)
        },
        Key::Delete => if cursor < value.len() {
            (value.subrange(0, cursor as int) + value.subrange(cursor as int + 1, value.len() as int), cursor, true)
        } else {
            (value, cursor, false)
        },
        Key::Left => if cursor > 0 { (value, (cursor - 1) as nat, true) } else { (value, cursor, false) },
        Key::Right => if cursor < value.len() { (value, cursor + 1, true) } else { (value, cursor, false) },
        Key::Home => if cursor > 0 { (value, 0nat, true) } else { (value, cursor, false) },
        Key::End => if cursor < value.len() { (value, value.len(), true) } else { (value, cursor, false) },
        _ => (value, cursor, false),
    }
}

impl TextInput {
    /// The cursor lies within the value.
    pub open spec fn wf(&self) -> bool {
        self.cursor_pos <= self.value@.len()
    }

    /// An empty, unfocused input with no limit and no rule.
    pub fn new() -> (r: TextInput)
        ensures
            r.wf(),
            r.value@.len() == 0,
            r.placeholder@.len() == 0,
            r.max_length is None,
            r.validator is None,
            r.cursor_pos == 0,
            !r.is_focused,
    {
        TextInput {
            value: String::new(),
            placeholder: String::new(),
            max_length: None,
            validator: None,
            cursor_pos: 0,
            is_focused: false,
        }
    }

    pub fn with_placeholder(self, placeholder: &str) -> (r: TextInput)
        ensures
            r == (TextInput { placeholder: r.placeholder, ..self }),
            r.placeholder@ == placeholder@,
    {
        TextInput { placeholder: String::from_str(placeholder), ..self }
    }

    pub fn with_max_length(self, max_length: usize) -> (r: TextInput)
        ensures
            r == (TextInput { max_length: Some(max_length), ..self }),
    {
        TextInput { max_length: Some(max_length), ..self }
    }

    pub fn with_validator(self, validator: CharRule) -> (r: TextInput)
        ensures
            r == (TextInput { validator: Some(validator), ..self }),
    {
        TextInput { validator: Some(validator), ..self }
    }

    /// Sets the value and puts the cursor at its end.
    pub fn with_value(self, value: &str) -> (r: TextInput)
        ensures
            r.wf(),
            r.value@ == value@,
            r.cursor_pos == value@.len(),
            r.placeholder == self.placeholder,
            r.max_length == self.max_length,
            r.validator == self.validator,
            r.is_focused == self.is_focused,
    {
        let n = value.unicode_len();
        TextInput { value: String::from_str(value), cursor_pos: n, ..self }
    }

    pub fn set_focused(&mut self, focused: bool)
        ensures
            *final(self) == (TextInput { is_focused: focused, ..*old(self) }),
    {
        self.is_focused = focused;
    }

    /// Empties the value and moves the cursor to the start.
    pub fn clear(&mut self)
        ensures
            final(self).wf(),
            final(self).value@.len() == 0,
            final(self).cursor_pos == 0,
            final(self).placeholder == old(self).placeholder,
            final(self).max_length == old(self).max_length,
            final(self).validator == old(self).validator,
            final(self).is_focused == old(self).is_focused,
    {
        self.value = String::new();
        self.cursor_pos = 0;
    }

    pub fn value(&self) -> (r: &str)
        ensures
            r@ == self.value@,
    {
        self.value.as_str()
    }

    pub fn is_empty(&self) -> (r: bool)
        ensures
            r == (self.value@.len() == 0),
    {
        self.value.as_str().unicode_len() == 0
    }

    /// Whether the character passes the input's rule.
    pub fn is_valid_char(&self, c: char) -> (r: bool)
        ensures
            r == input_accepts(self.validator, c),
    {
        match self.validator {
            Some(rule) => rule.accepts(c),
            None => true,
        }
    }

    /// Applies a key: typing inserts at the cursor (when the rule accepts the
    /// character and the limit leaves room), Backspace and Delete remove around
    /// the cursor, and Left, Right, Home and End move it. Returns whether the
    /// input changed.
    pub fn handle_key(&mut self, key: Key) -> (r: bool)
        requires
            old(self).wf(),
        ensures
            final(self).wf(),
            (final(self).value@, final(self).cursor_pos as nat, r) == text_key_effect(
                old(self).value@,
                old(self).cursor_pos as nat,
                old(self).max_length,
                old(self).validator,
                key,
            ),
            final(self).placeholder == old(self).placeholder,
            final(self).max_length == old(self).max_length,
            final(self).validator == old(self).validator,
            final(self).is_focused == old(self).is_focused,
    {
        let n = self.value.as_str().unicode_len();
        let cur = self.cursor_pos;
        match key {
            Key::Char(c) => {
                let room = match self.max_length {
                    Some(m) => n < m,
                    None => n < usize::MAX,
                };
                if self.is_valid_char(c) && room {
                    let mut out = String::from_str(self.value.as_str().substring_char(0, cur));
                    push_char(&mut out, c);
                    out.append(self.value.as_str().substring_char(cur, n));
                    self.value = out;
                    self.cursor_pos = cur + 1;
                    true
                } else {
                    false
                }
            },
            Key::Backspace => {
                if cur > 0 {
                    let out = String::from_str(self.value.as_str().substring_char(0, cur - 1)).concat(
                        self.value.as_str().substring_char(cur, n),
                    );
                    self.value = out;
                    self.cursor_pos = cur - 1;
                    true
                } else {
                    false
                }
            },
            Key::Delete => {
                if cur < n {
                    let out = String::from_str(self.value.as_str().substring_char(0, cur)).concat(
                        self.value.as_str().substring_char(cur + 1, n),
                    );
                    self.value = out;
                    true
                } else {
                    false
                }
            },
            Key::Left => {
                if cur > 0 {
                    self.cursor_pos = cur - 1;
                    true
                } else {
                    false
                }
            },
            Key::Right => {
                if cur < n {
                    self.cursor_pos = cur + 1;
                    true
                } else {
                    false
                }
            },
            Key::Home => {
                if cur > 0 {
                    self.cursor_pos = 0;
                    true
                } else {
                    false
                }
            },
            Key::End => {
                if cur < n {
                    self.cursor_pos = n;
                    true
                } else {
                    false
                }
            },
            _ => false,
        }
    }
}

impl Default for TextInput {
    fn default() -> (r: TextInput)
        ensures
            r.wf(),
            r.value@.len() == 0,
            r.cursor_pos == 0,
    {
        TextInput::new()
    }
}

} // verus!
