//! What is learned of an address without asking its mail server.

use vstd::prelude::*;
use vstd::string::StringExecFns;

use crate::document::{
    fields_view, optional_flag, optional_text, push_field, record_of, Document, DocumentView,
};

verus! {

/// Facts about an address that do not come from its mail server.
#[derive(Debug, Clone)]
pub struct MiscDetails {
    /// Whether the address is of a provider of throw-away mailboxes.
    pub is_disposable: bool,
    /// Whether the address belongs to a role (`admin@`, `info@`) and not to
    /// a person.
    pub is_role_account: bool,
    /// The address of the gravatar image, where one was looked for and found.
    pub gravatar_url: Option<String>,
    /// Whether the address is known to HaveIBeenPwned, where that was asked.
    pub haveibeenpwned: Option<bool>,
}

impl Default for MiscDetails {
    fn default() -> (r: Self)
        ensures
            !r.is_disposable,
            !r.is_role_account,
            r.gravatar_url is None,
            r.haveibeenpwned is None,
    {
        MiscDetails {
            is_disposable: false,
            is_role_account: false,
            gravatar_url: None,
            haveibeenpwned: None,
        }
    }
}

/// Why the facts about an address could not be had.
#[derive(Debug, Clone)]
pub enum MiscError {
    /// The gravatar lookup failed.
    GravatarError(String),
    /// The HaveIBeenPwned lookup failed.
    HaveIBeenPwnedError(String),
}

impl MiscError {
    /// The name of the kind of error.
    pub open spec fn spec_kind(&self) -> Seq<char> {
        match self {
            MiscError::GravatarError(_) => "GravatarError"@,
            MiscError::HaveIBeenPwnedError(_) => "HaveIBeenPwnedError"@,
        }
    }

    /// The text of the error.
    pub open spec fn spec_message(&self) -> Seq<char> {
        match self {
            MiscError::GravatarError(text) => text@,
            MiscError::HaveIBeenPwnedError(text) => text@,
        }
    }

    /// The name of the kind of error.
    pub fn kind(&self) -> (r: String)
        ensures
            r@ == self.spec_kind(),
    {
        match self {
            MiscError::GravatarError(_) => String::from_str("GravatarError"),
            MiscError::HaveIBeenPwnedError(_) => String::from_str("HaveIBeenPwnedError"),
        }
    }

    /// The text of the error.
    pub fn message(&self) -> (r: String)
        ensures
            r@ == self.spec_message(),
    {
        match self {
            MiscError::GravatarError(text) => text.clone(),
            MiscError::HaveIBeenPwnedError(text) => text.clone(),
        }
    }
}


impl MiscDetails {
    /// The record that is serialized: the four fields in the order of their
    /// declaration.
    pub open spec fn spec_document(&self) -> DocumentView {
        DocumentView::Record(
            seq![
                ("is_disposable"@, DocumentView::Bool(self.is_disposable)),
                ("is_role_account"@, DocumentView::Bool(self.is_role_account)),
                ("gravatar_url"@, optional_text(self.gravatar_url)),
                ("haveibeenpwned"@, optional_flag(self.haveibeenpwned)),
            ],
        )
    }

    /// The record that is serialized.
    pub fn to_document(&self) -> (r: Document)
        ensures
            r@ == self.spec_document(),
    {
        let mut fields: Vec<(String, Document)> = Vec::new();
        push_field(&mut fields, "is_disposable", Document::Bool(self.is_disposable));
        push_field(&mut fields, "is_role_account", Document::Bool(self.is_role_account));
        push_field(&mut fields, "gravatar_url", Document::optional_text(&self.gravatar_url));
        push_field(&mut fields, "haveibeenpwned", Document::optional_flag(&self.haveibeenpwned));
        assert(fields_view(fields@) =~= self.spec_document()->Record_0);
        record_of(fields)
    }
}

} // verus!
