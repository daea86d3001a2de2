//! What resolving the mail exchangers of a domain gives.

use vstd::prelude::*;
use vstd::string::StringExecFns;

use crate::document::{fields_view, push_field, record_of, text_list, Document, DocumentView};

verus! {

/// The mail exchangers of a domain.
#[derive(Debug, Clone)]
pub struct MxDetails {
    /// The names of the hosts, most preferred first.
    pub records: Vec<String>,
}

impl MxDetails {
    /// Whether the domain has a host that receives mail.
    pub open spec fn spec_accepts_mail(&self) -> bool {
        self.records@.len() > 0
    }

    /// Whether the domain has a host that receives mail.
    pub fn accepts_mail(&self) -> (r: bool)
        ensures
            r == self.spec_accepts_mail(),
    {
        self.records.len() > 0
    }
}

impl Default for MxDetails {
    fn default() -> (r: Self)
        ensures
            r.records@ == Seq::<String>::empty(),
    {
        MxDetails { records: Vec::new() }
    }
}

/// Why the mail exchangers of a domain could not be had.
#[derive(Debug, Clone)]
pub enum MxError {
    /// The resolver could not be set up or reached.
    IoError(String),
    /// The lookup failed, or the domain has no mail exchanger.
    ResolveError(String),
}

impl MxError {
    /// The name of the kind of error.
    pub open spec fn spec_kind(&self) -> Seq<char> {
        match self {
            MxError::IoError(_) => "IoError"@,
            MxError::ResolveError(_) => "ResolveError"@,
        }
    }

    /// The text of the error.
    pub open spec fn spec_message(&self) -> Seq<char> {
        match self {
            MxError::IoError(text) => text@,
            MxError::ResolveError(text) => text@,
        }
    }

    /// The name of the kind of error.
    pub fn kind(&self) -> (r: String)
        ensures
            r@ == self.spec_kind(),
    {
        match self {
            MxError::IoError(_) => String::from_str("IoError"),
            MxError::ResolveError(_) => String::from_str("ResolveError"),
        }
    }

    /// The text of the error.
    pub fn message(&self) -> (r: String)
        ensures
            r@ == self.spec_message(),
    {
        match self {
            MxError::IoError(text) => text.clone(),
            MxError::ResolveError(text) => text.clone(),
        }
    }
}


impl MxDetails {
    /// The record that is serialized: whether the domain receives mail, then
    /// the names of its hosts.
    pub open spec fn spec_document(&self) -> DocumentView {
        DocumentView::Record(
            seq![
                ("accepts_mail"@, DocumentView::Bool(self.spec_accepts_mail())),
                ("records"@, text_list(self.records@)),
            ],
        )
    }

    /// The record that is serialized.
    pub fn to_document(&self) -> (r: Document)
        ensures
            r@ == self.spec_document(),
    {
        let mut fields: Vec<(String, Document)> = Vec::new();
        push_field(&mut fields, "accepts_mail", Document::Bool(self.accepts_mail()));
        push_field(&mut fields, "records", Document::text_list(&self.records));
        assert(fields_view(fields@) =~= self.spec_document()->Record_0);
        record_of(fields)
    }
}

} // verus!
