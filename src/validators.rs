//! Checks applied to form values.
use vstd::prelude::*;
use crate::text::{is_blank, is_blank_text, same_text, starts_with_text};

verus! {

/// What the URL parser makes of a text: its scheme, or the reason it failed.
pub uninterp spec fn parsed_scheme(s: Seq<char>) -> Result<Seq<char>, Seq<char>>;

/// Relies on `reqwest::Url::parse` (the `url` crate's WHATWG parser): the
/// scheme of the parsed address, or the parse error's text.
#[verifier::external_body]
fn url_scheme(s: &str) -> (r: Result<String, String>)
    ensures
        match parsed_scheme(s@) {
            Ok(sch) => r matches Ok(t) && t@ == sch,
            Err(m) => r matches Err(t) && t@ == m,
        },
{
    match reqwest::Url::parse(s) {
        Ok(u) => Ok(u.scheme().to_string()),
        Err(e) => Err(e.to_string()),
    }
}

pub open spec fn empty_message() -> Seq<char> {
    "Field cannot be empty"@
}

/// Refuses blank values.
#[derive(Debug, Clone, Copy)]
pub struct NonEmptyValidator;

impl NonEmptyValidator {
    /// `Err` with a message for a blank value, `Ok(None)` otherwise.
    pub fn validate(&self, value: &str) -> (r: Result<Option<String>, String>)
        ensures
            is_blank_text(value@) ==> (r matches Err(m) && m@ == empty_message()),
            !is_blank_text(value@) ==> r == Ok::<Option<String>, String>(None),
    {
        if is_blank(value) {
            Err(String::from_str("Field cannot be empty"))
        } else {
            Ok(None)
        }
    }
}

/// The verdict on a parsed address: http and https pass, another scheme or a
/// parse failure is refused with a message.
pub open spec fn spec_url_verdict(parsed: Result<Seq<char>, Seq<char>>, r: Result<Option<String>, String>) -> bool {
    match parsed {
        Ok(sch) => if sch == "http"@ || sch == "https"@ {
            r == Ok::<Option<String>, String>(None)
        } else {
            r matches Err(m) && m@ == "URL must use http:// or https:// (found: "@ + sch + "://)"@
        },
        Err(e) => r matches Err(m) && m@ == "Invalid URL format: "@ + e,
    }
}

pub open spec fn result_text(p: Result<String, String>) -> Result<Seq<char>, Seq<char>> {
    match p {
        Ok(s) => Ok(s@),
        Err(e) => Err(e@),
    }
}

/// Decides on an address from what the parser gave for it.
pub fn url_verdict(parsed: Result<String, String>) -> (r: Result<Option<String>, String>)
    ensures
        spec_url_verdict(result_text(parsed), r),
{
    match parsed {
        Ok(scheme) => {
            if same_text(scheme.as_str(), "http") || same_text(scheme.as_str(), "https") {
                Ok(None)
            } else {
                let mut m = String::from_str("URL must use http:// or https:// (found: ");
                m.append(scheme.as_str());
                m.append("://)");
                Err(m)
            }
        },
        Err(e) => {
            let m = String::from_str("Invalid URL format: ");
            Err(m.concat(e.as_str()))
        },
    }
}

pub open spec fn has_prefix(s: Seq<char>, p: Seq<char>) -> bool {
    p.len() <= s.len() && s.subrange(0, p.len() as int) == p
}

/// Whether an address has the shape of a chat webhook, before any request is made.
pub open spec fn spec_webhook_shape(url: Seq<char>) -> bool {
    has_prefix(url, "https://discord.com/api/webhooks/"@) || has_prefix(url, "https://discordapp.com/api/webhooks/"@)
}

/// Refuses a webhook address that is not under either webhook API path; the
/// reachability probe that follows is the caller's.
pub fn webhook_format_check(url: &str) -> (r: Result<(), String>)
    ensures
        spec_webhook_shape(url@) ==> r is Ok,
        !spec_webhook_shape(url@) ==> (r matches Err(m) && m@ == "Invalid Discord webhook URL format"@),
{
    if starts_with_text(url, "https://discord.com/api/webhooks/")
        || starts_with_text(url, "https://discordapp.com/api/webhooks/") {
        Ok(())
    } else {
        Err(String::from_str("Invalid Discord webhook URL format"))
    }
}

/// Accepts well-formed http and https addresses.
#[derive(Debug, Clone, Copy)]
pub struct UrlFormatValidator;

impl UrlFormatValidator {
    pub fn validate(&self, value: &str) -> (r: Result<Option<String>, String>)
        ensures
            spec_url_verdict(parsed_scheme(value@), r),
    {
        let parsed = url_scheme(value);
        url_verdict(parsed)
    }
}

} // verus!
