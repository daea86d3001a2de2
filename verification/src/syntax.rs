//! What parsing an address gives.

use vstd::prelude::*;

use crate::document::{fields_view, optional_text, push_field, record_of, Document, DocumentView};

verus! {

/// The parts of an address, as the parser found them.
#[derive(Debug, Clone)]
pub struct SyntaxDetails {
    /// The address, where it is well formed.
    pub address: Option<String>,
    /// The part after the `@`.
    pub domain: String,
    /// Whether the address is well formed.
    pub is_valid_syntax: bool,
    /// The part before the `@`.
    pub username: String,
    /// The address in the form its provider treats as the same mailbox.
    pub normalized_email: Option<String>,
    /// A likely intended address, where the domain looks mistyped.
    pub suggestion: Option<String>,
}

impl Default for SyntaxDetails {
    fn default() -> (r: Self)
        ensures
            r.address is None,
            r.domain@ == Seq::<char>::empty(),
            !r.is_valid_syntax,
            r.username@ == Seq::<char>::empty(),
            r.normalized_email is None,
            r.suggestion is None,
    {
        SyntaxDetails {
            address: None,
            domain: String::new(),
            is_valid_syntax: false,
            username: String::new(),
            normalized_email: None,
            suggestion: None,
        }
    }
}


impl SyntaxDetails {
    /// The record that is serialized: the six fields in the order of their
    /// declaration.
    pub open spec fn spec_document(&self) -> DocumentView {
        DocumentView::Record(
            seq![
                ("address"@, optional_text(self.address)),
                ("domain"@, DocumentView::Text(self.domain@)),
                ("is_valid_syntax"@, DocumentView::Bool(self.is_valid_syntax)),
                ("username"@, DocumentView::Text(self.username@)),
                ("normalized_email"@, optional_text(self.normalized_email)),
                ("suggestion"@, optional_text(self.suggestion)),
            ],
        )
    }

    /// The record that is serialized.
    pub fn to_document(&self) -> (r: Document)
        ensures
            r@ == self.spec_document(),
    {
        let mut fields: Vec<(String, Document)> = Vec::new();
        push_field(&mut fields, "address", Document::optional_text(&self.address));
        push_field(&mut fields, "domain", Document::text(self.domain.as_str()));
        push_field(&mut fields, "is_valid_syntax", Document::Bool(self.is_valid_syntax));
        push_field(&mut fields, "username", Document::text(self.username.as_str()));
        push_field(&mut fields, "normalized_email", Document::optional_text(&self.normalized_email));
        push_field(&mut fields, "suggestion", Document::optional_text(&self.suggestion));
        assert(fields_view(fields@) =~= self.spec_document()->Record_0);
        record_of(fields)
    }
}

} // verus!
