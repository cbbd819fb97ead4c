//! Kinds of modal dialog.
use vstd::prelude::*;

verus! {

#[derive(Debug, Clone, Copy, PartialEq, Eq, Structural)]
pub enum DialogType {
    Error,
    Success,
    Warning,
    Info,
    Confirmation,
}

pub open spec fn spec_default_title(d: DialogType) -> Seq<char> {
    match d {
        DialogType::Error => "Error"@,
        DialogType::Success => "Success"@,
        DialogType::Warning => "Warning"@,
        DialogType::Info => "Information"@,
        DialogType::Confirmation => "Confirm"@,
    }
}

/// One line of a dialog's content.
#[derive(Debug, Clone)]
pub struct DialogLine {
    pub text: String,
    pub centered: bool,
}

impl DialogLine {
    pub fn plain(text: &str) -> (r: DialogLine)
        ensures
            r.text@ == text@,
            !r.centered,
    {
        DialogLine { text: String::from_str(text), centered: false }
    }

    pub fn centered(text: &str) -> (r: DialogLine)
        ensures
            r.text@ == text@,
            r.centered,
    {
        DialogLine { text: String::from_str(text), centered: true }
    }
}

/// A modal message box: title, lines, kind, and size in percent of the screen.
#[derive(Debug, Clone)]
pub struct ModalDialog {
    pub title: String,
    pub content: Vec<DialogLine>,
    pub dialog_type: DialogType,
    pub width_percent: u16,
    pub height_percent: u16,
}

/// A size in percent, kept within 1 to 100.
pub open spec fn clamp_percent(p: u16) -> u16 {
    if p < 1 { 1 } else if p > 100 { 100 } else { p }
}

/// The lines of a new dialog: the message centred between two blank lines.
pub open spec fn message_lines(content: Seq<DialogLine>, message: Seq<char>) -> bool {
    &&& content.len() == 3
    &&& content[0].text@.len() == 0 && !content[0].centered
    &&& content[1].text@ == message && content[1].centered
    &&& content[2].text@.len() == 0 && !content[2].centered
}

impl ModalDialog {
    /// A 60% by 20% dialog showing the message.
    pub fn new(dialog_type: DialogType, title: &str, message: &str) -> (r: ModalDialog)
        ensures
            r.title@ == title@,
            r.dialog_type == dialog_type,
            r.width_percent == 60,
            r.height_percent == 20,
            message_lines(r.content@, message@),
    {
        let mut content: Vec<DialogLine> = Vec::new();
        content.push(DialogLine { text: String::new(), centered: false });
        content.push(DialogLine::centered(message));
        content.push(DialogLine { text: String::new(), centered: false });
        ModalDialog { title: String::from_str(title), content, dialog_type, width_percent: 60, height_percent: 20 }
    }

    pub fn error(message: &str) -> (r: ModalDialog)
        ensures
            r.title@ == spec_default_title(DialogType::Error),
            r.dialog_type == DialogType::Error,
            message_lines(r.content@, message@),
    {
        ModalDialog::new(DialogType::Error, DialogType::Error.default_title(), message)
    }

    /// A success dialog, with a closing hint under the message.
    pub fn success(message: &str) -> (r: ModalDialog)
        ensures
            r.title@ == spec_default_title(DialogType::Success),
            r.dialog_type == DialogType::Success,
            r.content@.len() == 4,
            message_lines(r.content@.drop_last(), message@),
            r.content@[3].text@ == "[Press any key]"@,
    {
        let mut d = ModalDialog::new(DialogType::Success, DialogType::Success.default_title(), message);
        let ghost before = d.content@;
        d.content.push(DialogLine::centered("[Press any key]"));
        assert(d.content@.drop_last() =~= before);
        d
    }

    pub fn warning(message: &str) -> (r: ModalDialog)
        ensures
            r.title@ == spec_default_title(DialogType::Warning),
            r.dialog_type == DialogType::Warning,
            message_lines(r.content@, message@),
    {
        ModalDialog::new(DialogType::Warning, DialogType::Warning.default_title(), message)
    }

    pub fn info(message: &str) -> (r: ModalDialog)
        ensures
            r.title@ == spec_default_title(DialogType::Info),
            r.dialog_type == DialogType::Info,
            r.width_percent == 60,
            r.height_percent == 20,
            message_lines(r.content@, message@),
    {
        ModalDialog::new(DialogType::Info, DialogType::Info.default_title(), message)
    }

    /// A confirmation dialog, with the yes/no prompt under a blank line.
    pub fn confirm(prompt: &str) -> (r: ModalDialog)
        ensures
            r.title@ == spec_default_title(DialogType::Confirmation),
            r.dialog_type == DialogType::Confirmation,
            r.content@.len() == 5,
            message_lines(r.content@.subrange(0, 3), prompt@),
            r.content@[3].text@.len() == 0,
            r.content@[4].text@ == "[Y] Yes    [N] No"@,
    {
        let mut d = ModalDialog::new(DialogType::Confirmation, DialogType::Confirmation.default_title(), prompt);
        let ghost before = d.content@;
        d.content.push(DialogLine { text: String::new(), centered: false });
        d.content.push(DialogLine::centered("[Y] Yes    [N] No"));
        assert(d.content@.subrange(0, 3) =~= before);
        d
    }

    pub fn with_width_percent(self, width: u16) -> (r: ModalDialog)
        ensures
            r == (ModalDialog { width_percent: clamp_percent(width), ..self }),
    {
        let w = if width < 1 { 1 } else if width > 100 { 100 } else { width };
        ModalDialog { width_percent: w, ..self }
    }

    pub fn with_height_percent(self, height: u16) -> (r: ModalDialog)
        ensures
            r == (ModalDialog { height_percent: clamp_percent(height), ..self }),
    {
        let h = if height < 1 { 1 } else if height > 100 { 100 } else { height };
        ModalDialog { height_percent: h, ..self }
    }

    pub fn with_content(self, content: Vec<DialogLine>) -> (r: ModalDialog)
        ensures
            r == (ModalDialog { content, ..self }),
    {
        ModalDialog { content, ..self }
    }

    pub fn add_line(self, line: DialogLine) -> (r: ModalDialog)
        ensures
            r.content@ == self.content@.push(line),
            r.title == self.title,
            r.dialog_type == self.dialog_type,
            r.width_percent == self.width_percent,
            r.height_percent == self.height_percent,
    {
        let mut d = self;
        d.content.push(line);
        d
    }
}

impl DialogType {
    /// The title a dialog of this kind gets when none is given.
    pub fn default_title(&self) -> (r: &'static str)
        ensures
            r@ == spec_default_title(*self),
    {
        match self {
            DialogType::Error => "Error",
            DialogType::Success => "Success",
            DialogType::Warning => "Warning",
            DialogType::Info => "Information",
            DialogType::Confirmation => "Confirm",
        }
    }
}

} // verus!
