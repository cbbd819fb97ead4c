//! The endpoint configuration form: choosing a kind, filling its fields and
//! a note, checking them, and producing the stored JSON text.
use vstd::prelude::*;
use crate::keys::Key;
use crate::models::{DiscordConfig, EndpointKind, PushoverConfig, opt_view};
use crate::text::{is_blank, is_blank_text, json_quoted, json_string, push_char, starts_with_text, trim_text, trimmed};

verus! {

/// One field of the configuration form.
#[derive(Debug)]
pub struct FormField {
    pub label: String,
    pub value: String,
    pub required: bool,
    pub placeholder: String,
}

impl FormField {
    pub fn new(label: &str, required: bool, placeholder: &str) -> (r: FormField)
        ensures
            r.label@ == label@,
            r.value@.len() == 0,
            r.required == required,
            r.placeholder@ == placeholder@,
    {
        FormField {
            label: String::from_str(label),
            value: String::new(),
            required,
            placeholder: String::from_str(placeholder),
        }
    }
}

impl Clone for FormField {
    fn clone(&self) -> (r: Self)
        ensures
            r == *self,
    {
        FormField {
            label: self.label.clone(),
            value: self.value.clone(),
            required: self.required,
            placeholder: self.placeholder.clone(),
        }
    }
}

/// What the form asks of its screen.
#[derive(Debug, Clone, Copy, PartialEq, Eq, Structural)]
pub enum ConfigAction {
    Save,
    Cancel,
}

/// The fields of each kind: (label, required).
pub open spec fn kind_fields(kind: EndpointKind) -> Seq<(Seq<char>, bool)> {
    match kind {
        EndpointKind::Discord => seq![("Webhook URL"@, true), ("Username (optional)"@, false)],
        EndpointKind::Pushover => seq![("Token"@, true), ("User Key"@, true), ("Device (optional)"@, false)],
    }
}

/// The form state.
#[derive(Debug, Clone)]
pub struct ConfigBuilder {
    pub endpoint_type: EndpointKind,
    pub fields: Vec<FormField>,
    pub note: String,
    pub current_field: usize,
    pub type_selection_mode: bool,
    pub editing_note: bool,
}

/// The first required field that is blank, if any.
pub open spec fn first_missing(fields: Seq<FormField>) -> Option<int>
    decreases fields.len(),
{
    if fields.len() == 0 {
        None
    } else {
        match first_missing(fields.drop_last()) {
            Some(i) => Some(i),
            None => if fields.last().required && is_blank_text(fields.last().value@) {
                Some(fields.len() - 1)
            } else {
                None
            },
        }
    }
}

pub open spec fn missing_message(label: Seq<char>) -> Seq<char> {
    "Field '"@ + label + "' is required"@
}

pub open spec fn https_message() -> Seq<char> {
    "Webhook URL must start with https://"@
}

/// The outcome of checking a form: the first blank required field, else for
/// a webhook an address not starting with `https://`, else success.
pub open spec fn spec_check(b: ConfigBuilder) -> Result<(), Seq<char>> {
    match first_missing(b.fields@) {
        Some(i) => Err(missing_message(b.fields@[i].label@)),
        None => {
            let url = b.fields@[0].value@;
            if b.endpoint_type == EndpointKind::Discord && !(8 <= url.len() && url.subrange(0, 8) == "https://"@) {
                Err(https_message())
            } else {
                Ok(())
            }
        },
    }
}

/// The JSON text stored for a checked form, keys in sorted order and values trimmed.
pub open spec fn spec_json(b: ConfigBuilder) -> Seq<char> {
    let f = b.fields@;
    match b.endpoint_type {
        EndpointKind::Discord => {
            let url = json_quoted(trimmed(f[0].value@));
            if is_blank_text(f[1].value@) {
                "{\"webhook_url\":"@ + url + "}"@
            } else {
                "{\"username\":"@ + json_quoted(trimmed(f[1].value@)) + ",\"webhook_url\":"@ + url + "}"@
            }
        },
        EndpointKind::Pushover => {
            let rest = "\"token\":"@ + json_quoted(trimmed(f[0].value@)) + ",\"user\":"@ + json_quoted(trimmed(f[1].value@)) + "}"@;
            if is_blank_text(f[2].value@) {
                "{"@ + rest
            } else {
                "{\"device\":"@ + json_quoted(trimmed(f[2].value@)) + ","@ + rest
            }
        },
    }
}

impl ConfigBuilder {
    /// The fields match the kind and the focus lies on one of them.
    pub open spec fn wf(&self) -> bool {
        &&& self.fields@.len() == kind_fields(self.endpoint_type).len()
        &&& forall|i: int| 0 <= i < self.fields@.len() ==> (#[trigger] self.fields@[i]).label@ == kind_fields(self.endpoint_type)[i].0
            && self.fields@[i].required == kind_fields(self.endpoint_type)[i].1
        &&& self.current_field < self.fields@.len()
    }

    /// A form in kind selection, on the webhook kind.
    pub fn new() -> (r: ConfigBuilder)
        ensures
            r.wf(),
            r.endpoint_type == EndpointKind::Discord,
            r.note@.len() == 0,
            r.current_field == 0,
            r.type_selection_mode,
            !r.editing_note,
            forall|i: int| 0 <= i < r.fields@.len() ==> (#[trigger] r.fields@[i]).value@.len() == 0,
    {
        let mut b = ConfigBuilder {
            endpoint_type: EndpointKind::Discord,
            fields: Vec::new(),
            note: String::new(),
            current_field: 0,
            type_selection_mode: true,
            editing_note: false,
        };
        b.set_type(EndpointKind::Discord);
        b
    }

    /// Switches to a kind: its fields, empty, with the focus on the first.
    pub fn set_type(&mut self, kind: EndpointKind)
        ensures
            final(self).wf(),
            final(self).endpoint_type == kind,
            final(self).current_field == 0,
            final(self).note == old(self).note,
            final(self).type_selection_mode == old(self).type_selection_mode,
            final(self).editing_note == old(self).editing_note,
            forall|i: int| 0 <= i < final(self).fields@.len() ==> (#[trigger] final(self).fields@[i]).value@.len() == 0,
    {
        self.endpoint_type = kind;
        self.fields = Vec::new();
        self.current_field = 0;
        proof {
            reveal_strlit("Webhook URL");
            reveal_strlit("Username (optional)");
            reveal_strlit("Token");
            reveal_strlit("User Key");
            reveal_strlit("Device (optional)");
        }
        match kind {
            EndpointKind::Discord => {
                self.fields.push(FormField::new("Webhook URL", true, "https://discord.com/api/webhooks/..."));
                self.fields.push(FormField::new("Username (optional)", false, "Reddit Notifier"));
            },
            EndpointKind::Pushover => {
                self.fields.push(FormField::new("Token", true, "your-app-token"));
                self.fields.push(FormField::new("User Key", true, "your-user-key"));
                self.fields.push(FormField::new("Device (optional)", false, ""));
            },
        }
    }

    /// A form for editing a stored webhook endpoint, filled from its settings.
    pub fn from_discord(cfg: &DiscordConfig, note: Option<String>) -> (r: ConfigBuilder)
        ensures
            r.wf(),
            r.endpoint_type == EndpointKind::Discord,
            !r.type_selection_mode,
            !r.editing_note,
            r.current_field == 0,
            r.fields@[0].value@ == cfg.webhook_url@,
            r.fields@[1].value@ == match opt_view(cfg.username) { Some(u) => u, None => Seq::<char>::empty() },
            r.note@ == match opt_view(note) { Some(n) => n, None => Seq::<char>::empty() },
    {
        let mut b = ConfigBuilder {
            endpoint_type: EndpointKind::Discord,
            fields: Vec::new(),
            note: match note { Some(n) => n, None => String::new() },
            current_field: 0,
            type_selection_mode: false,
            editing_note: false,
        };
        b.set_type(EndpointKind::Discord);
        b.set_value(0, cfg.webhook_url.clone());
        match &cfg.username {
            Some(u) => b.set_value(1, u.clone()),
            None => {},
        }
        b
    }

    /// A form for editing a stored push-service endpoint, filled from its settings.
    pub fn from_pushover(cfg: &PushoverConfig, note: Option<String>) -> (r: ConfigBuilder)
        ensures
            r.wf(),
            r.endpoint_type == EndpointKind::Pushover,
            !r.type_selection_mode,
            !r.editing_note,
            r.current_field == 0,
            r.fields@[0].value@ == cfg.token@,
            r.fields@[1].value@ == cfg.user@,
            r.fields@[2].value@ == match opt_view(cfg.device) { Some(d) => d, None => Seq::<char>::empty() },
            r.note@ == match opt_view(note) { Some(n) => n, None => Seq::<char>::empty() },
    {
        let mut b = ConfigBuilder {
            endpoint_type: EndpointKind::Pushover,
            fields: Vec::new(),
            note: match note { Some(n) => n, None => String::new() },
            current_field: 0,
            type_selection_mode: false,
            editing_note: false,
        };
        b.set_type(EndpointKind::Pushover);
        b.set_value(0, cfg.token.clone());
        b.set_value(1, cfg.user.clone());
        match &cfg.device {
            Some(d) => b.set_value(2, d.clone()),
            None => {},
        }
        b
    }

    /// Replaces the value of one field.
    fn set_value(&mut self, i: usize, value: String)
        requires
            old(self).wf(),
            i < old(self).fields@.len(),
        ensures
            final(self).wf(),
            final(self).endpoint_type == old(self).endpoint_type,
            final(self).note == old(self).note,
            final(self).current_field == old(self).current_field,
            final(self).type_selection_mode == old(self).type_selection_mode,
            final(self).editing_note == old(self).editing_note,
            final(self).fields@.len() == old(self).fields@.len(),
            final(self).fields@[i as int].value == value,
            forall|j: int| 0 <= j < old(self).fields@.len() && j != i ==> final(self).fields@[j] == old(self).fields@[j],
    {
        let mut f = self.fields[i].clone();
        f.value = value;
        self.fields.set(i, f);
    }

    /// The note, unless it is empty.
    pub fn get_note(&self) -> (r: Option<&str>)
        ensures
            self.note@.len() == 0 ==> r is None,
            self.note@.len() > 0 ==> (r matches Some(t) && t@ == self.note@),
    {
        if self.note.as_str().unicode_len() == 0 {
            None
        } else {
            Some(self.note.as_str())
        }
    }

    /// Checks the form: required fields filled, and a webhook address over https.
    pub fn validate(&self) -> (r: Result<(), String>)
        requires
            self.wf(),
        ensures
            match spec_check(*self) {
                Ok(()) => r is Ok,
                Err(m) => r matches Err(e) && e@ == m,
            },
    {
        let mut i: usize = 0;
        while i < self.fields.len()
            invariant
                i <= self.fields@.len(),
                first_missing(self.fields@.subrange(0, i as int)) is None,
            decreases self.fields@.len() - i,
        {
            proof {
                assert(self.fields@.subrange(0, i + 1).drop_last() =~= self.fields@.subrange(0, i as int));
            }
            if self.fields[i].required && is_blank(self.fields[i].value.as_str()) {
                proof {
                    lemma_first_missing_prefix(self.fields@, (i + 1) as int);
                }
                let mut m = String::from_str("Field '");
                m.append(self.fields[i].label.as_str());
                m.append("' is required");
                return Err(m);
            }
            i = i + 1;
        }
        proof {
            assert(self.fields@.subrange(0, self.fields@.len() as int) =~= self.fields@);
        }
        if self.endpoint_type == EndpointKind::Discord {
            proof {
                reveal_strlit("https://");
            }
            if !starts_with_text(self.fields[0].value.as_str(), "https://") {
                return Err(String::from_str("Webhook URL must start with https://"));
            }
        }
        Ok(())
    }

    /// Checks the form, then produces the JSON text to store.
    pub fn build_json(&self) -> (r: Result<String, String>)
        requires
            self.wf(),
        ensures
            match spec_check(*self) {
                Ok(()) => r matches Ok(j) && j@ == spec_json(*self),
                Err(m) => r matches Err(e) && e@ == m,
            },
    {
        match self.validate() {
            Err(e) => Err(e),
            Ok(()) => {
                match self.endpoint_type {
                    EndpointKind::Discord => {
                        let url = json_string(trim_text(self.fields[0].value.as_str()).as_str());
                        if is_blank(self.fields[1].value.as_str()) {
                            let mut out = String::from_str("{\"webhook_url\":");
                            out.append(url.as_str());
                            out.append("}");
                            assert(out@ =~= spec_json(*self));
                            Ok(out)
                        } else {
                            let user = json_string(trim_text(self.fields[1].value.as_str()).as_str());
                            let mut out = String::from_str("{\"username\":");
                            out.append(user.as_str());
                            out.append(",\"webhook_url\":");
                            out.append(url.as_str());
                            out.append("}");
                            assert(out@ =~= spec_json(*self));
                            Ok(out)
                        }
                    },
                    EndpointKind::Pushover => {
                        let token = json_string(trim_text(self.fields[0].value.as_str()).as_str());
                        let user = json_string(trim_text(self.fields[1].value.as_str()).as_str());
                        let mut out = if !is_blank(self.fields[2].value.as_str()) {
                            let dev = json_string(trim_text(self.fields[2].value.as_str()).as_str());
                            let mut o = String::from_str("{\"device\":");
                            o.append(dev.as_str());
                            o.append(",");
                            o
                        } else {
                            String::from_str("{")
                        };
                        out.append("\"token\":");
                        out.append(token.as_str());
                        out.append(",\"user\":");
                        out.append(user.as_str());
                        out.append("}");
                        assert(out@ =~= spec_json(*self));
                        Ok(out)
                    },
                }
            },
        }
    }

    /// Keys of the form. In kind selection, Up and Down switch the kind, Enter
    /// goes on to the fields and Esc cancels. In the fields, Tab and BackTab
    /// cycle through the fields and the note, typing and Backspace edit the
    /// focused one, Enter checks the form and asks to save, Esc cancels.
    pub fn handle_input(&mut self, key: Key) -> (r: Result<Option<ConfigAction>, String>)
        requires
            old(self).wf(),
        ensures
            final(self).wf(),
            key == Key::Esc ==> r == Ok::<Option<ConfigAction>, String>(Some(ConfigAction::Cancel)),
            !old(self).type_selection_mode && key == Key::Enter ==> match spec_check(*old(self)) {
                Ok(()) => r == Ok::<Option<ConfigAction>, String>(Some(ConfigAction::Save)),
                Err(m) => r matches Err(e) && e@ == m,
            },
            old(self).type_selection_mode && key == Key::Enter ==> !final(self).type_selection_mode && r == Ok::<Option<ConfigAction>, String>(None),
            old(self).type_selection_mode && (key == Key::Up || key == Key::Down) ==> final(self).endpoint_type != old(self).endpoint_type,
            forall|c: char| (!old(self).type_selection_mode && old(self).editing_note && key == Key::Char(c)) ==> final(self).note@ == old(self).note@.push(c),
            forall|c: char| (!old(self).type_selection_mode && !old(self).editing_note && key == Key::Char(c)) ==>
                final(self).fields@[old(self).current_field as int].value@ == old(self).fields@[old(self).current_field as int].value@.push(c),
    {
        if self.type_selection_mode {
            match key {
                Key::Up | Key::Down => {
                    let k = match self.endpoint_type {
                        EndpointKind::Discord => EndpointKind::Pushover,
                        EndpointKind::Pushover => EndpointKind::Discord,
                    };
                    self.set_type(k);
                    return Ok(None);
                },
                Key::Enter => {
                    self.type_selection_mode = false;
                    return Ok(None);
                },
                Key::Esc => {
                    return Ok(Some(ConfigAction::Cancel));
                },
                _ => {
                    return Ok(None);
                },
            }
        }
        let n = self.fields.len();
        match key {
            Key::Tab => {
                if self.editing_note {
                    self.editing_note = false;
                    self.current_field = 0;
                } else if self.current_field == n - 1 {
                    self.editing_note = true;
                } else {
                    self.current_field = self.current_field + 1;
                }
                Ok(None)
            },
            Key::BackTab => {
                if self.editing_note {
                    self.editing_note = false;
                    self.current_field = n - 1;
                } else if self.current_field == 0 {
                    self.editing_note = true;
                } else {
                    self.current_field = self.current_field - 1;
                }
                Ok(None)
            },
            Key::Char(c) => {
                if self.editing_note {
                    push_char(&mut self.note, c);
                } else {
                    let i = self.current_field;
                    let mut f = self.fields[i].clone();
                    push_char(&mut f.value, c);
                    self.fields.set(i, f);
                }
                Ok(None)
            },
            Key::Backspace => {
                if self.editing_note {
                    let len = self.note.as_str().unicode_len();
                    if len > 0 {
                        let shorter = String::from_str(self.note.as_str().substring_char(0, len - 1));
                        self.note = shorter;
                    }
                } else {
                    let i = self.current_field;
                    let mut f = self.fields[i].clone();
                    let len = f.value.as_str().unicode_len();
                    if len > 0 {
                        let shorter = String::from_str(f.value.as_str().substring_char(0, len - 1));
                        f.value = shorter;
                    }
                    self.fields.set(i, f);
                }
                Ok(None)
            },
            Key::Enter => {
                match self.validate() {
                    Ok(()) => Ok(Some(ConfigAction::Save)),
                    Err(e) => Err(e),
                }
            },
            Key::Esc => Ok(Some(ConfigAction::Cancel)),
            _ => Ok(None),
        }
    }
}

proof fn lemma_first_missing_prefix(fields: Seq<FormField>, k: int)
    requires
        0 < k <= fields.len(),
        first_missing(fields.subrange(0, k - 1)) is None,
        fields[k - 1].required && is_blank_text(fields[k - 1].value@),
    ensures
        first_missing(fields) == Some(k - 1),
    decreases fields.len() - k,
{
    assert(fields.subrange(0, k).drop_last() =~= fields.subrange(0, k - 1));
    if k < fields.len() {
        lemma_first_missing_extends(fields, k, k - 1);
    } else {
        assert(fields.subrange(0, k) =~= fields);
    }
}

proof fn lemma_first_missing_extends(fields: Seq<FormField>, k: int, i: int)
    requires
        0 < k <= fields.len(),
        first_missing(fields.subrange(0, k)) == Some(i),
    ensures
        first_missing(fields) == Some(i),
    decreases fields.len() - k,
{
    if k == fields.len() {
        assert(fields.subrange(0, k) =~= fields);
    } else {
        assert(fields.subrange(0, k + 1).drop_last() =~= fields.subrange(0, k));
        lemma_first_missing_extends(fields, k + 1, i);
    }
}

impl Default for ConfigBuilder {
    fn default() -> (r: ConfigBuilder)
        ensures
            r.wf(),
            r.type_selection_mode,
    {
        ConfigBuilder::new()
    }
}

} // verus!
