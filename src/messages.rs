//! The one error or success message the interface shows at a time.
use vstd::prelude::*;

verus! {

/// At most one of an error and a success message.
#[derive(Debug, Default, Clone)]
pub struct MessageDisplay {
    pub error: Option<String>,
    pub success: Option<String>,
}

impl MessageDisplay {
    pub fn new() -> (r: MessageDisplay)
        ensures
            r.error is None,
            r.success is None,
    {
        MessageDisplay { error: None, success: None }
    }

    /// Shows an error, replacing any success message.
    pub fn set_error(&mut self, msg: String)
        ensures
            final(self).error == Some(msg),
            final(self).success is None,
    {
        self.error = Some(msg);
        self.success = None;
    }

    /// Shows a success message, replacing any error.
    pub fn set_success(&mut self, msg: String)
        ensures
            final(self).success == Some(msg),
            final(self).error is None,
    {
        self.success = Some(msg);
        self.error = None;
    }

    pub fn clear(&mut self)
        ensures
            final(self).error is None,
            final(self).success is None,
    {
        self.error = None;
        self.success = None;
    }

    pub fn has_message(&self) -> (r: bool)
        ensures
            r == (self.error is Some || self.success is Some),
    {
        self.error.is_some() || self.success.is_some()
    }
}

} // verus!
