//! The shape in which a result is handed to a serializer: records of named
//! fields in a fixed order, lists, texts, truth values and the absent value.
//!
//! A field that is not in a record is absent from what is serialized; a field
//! that holds `Null` is serialized as the absent value. The two differ, and a
//! reader of the serialized form may go by the difference.

use vstd::prelude::*;
use vstd::string::StringExecFns;

verus! {

/// A value to serialize.
#[derive(Debug)]
pub enum Document {
    /// The absent value.
    Null,
    /// A truth value.
    Bool(bool),
    /// A text.
    Text(String),
    /// Values in order.
    List(Vec<Document>),
    /// Named fields in order.
    Record(Vec<(String, Document)>),
}

/// What a [`Document`] holds.
#[verifier::ext_equal]
pub enum DocumentView {
    /// The absent value.
    Null,
    /// A truth value.
    Bool(bool),
    /// A text.
    Text(Seq<char>),
    /// Values in order.
    List(Seq<DocumentView>),
    /// Named fields in order.
    Record(Seq<(Seq<char>, DocumentView)>),
}

/// What a document holds.
pub open spec fn document_view(document: Document) -> DocumentView
    decreases document,
{
    match document {
        Document::Null => DocumentView::Null,
        Document::Bool(b) => DocumentView::Bool(b),
        Document::Text(s) => DocumentView::Text(s@),
        Document::List(items) => DocumentView::List(
            Seq::new(
                items@.len(),
                |i: int|
                    if 0 <= i < items@.len() {
                        document_view(items@[i])
                    } else {
                        DocumentView::Null
                    },
            ),
        ),
        Document::Record(fields) => DocumentView::Record(
            Seq::new(
                fields@.len(),
                |i: int|
                    if 0 <= i < fields@.len() {
                        (fields@[i].0@, document_view(fields@[i].1))
                    } else {
                        (Seq::empty(), DocumentView::Null)
                    },
            ),
        ),
    }
}

impl View for Document {
    type V = DocumentView;

    open spec fn view(&self) -> DocumentView {
        document_view(*self)
    }
}

impl DocumentView {
    /// The value is a record with a field of the given name.
    pub open spec fn has_field(self, name: Seq<char>) -> bool {
        self matches DocumentView::Record(fields) && exists|i: int|
            0 <= i < fields.len() && (#[trigger] fields[i]).0 == name
    }

    /// The names of the fields of a record, in order.
    pub open spec fn field_names(self) -> Seq<Seq<char>> {
        match self {
            DocumentView::Record(fields) => Seq::new(fields.len(), |i: int| fields[i].0),
            _ => Seq::empty(),
        }
    }

    /// The value of field `i` of a record.
    pub open spec fn field_value(self, i: int) -> DocumentView {
        match self {
            DocumentView::Record(fields) => fields[i].1,
            _ => DocumentView::Null,
        }
    }
}

/// The view of a text that may be absent.
pub open spec fn optional_text(text: Option<String>) -> DocumentView {
    match text {
        Some(s) => DocumentView::Text(s@),
        None => DocumentView::Null,
    }
}

/// The view of a truth value that may be absent.
pub open spec fn optional_flag(flag: Option<bool>) -> DocumentView {
    match flag {
        Some(b) => DocumentView::Bool(b),
        None => DocumentView::Null,
    }
}

/// The view of a list of texts.
pub open spec fn text_list(texts: Seq<String>) -> DocumentView {
    DocumentView::List(Seq::new(texts.len(), |i: int| DocumentView::Text(texts[i]@)))
}

impl Document {
    /// A text.
    pub fn text(s: &str) -> (r: Document)
        ensures
            r@ == DocumentView::Text(s@),
    {
        Document::Text(String::from_str(s))
    }

    /// A text, or the absent value.
    pub fn optional_text(text: &Option<String>) -> (r: Document)
        ensures
            r@ == optional_text(*text),
    {
        match text {
            Some(s) => Document::Text(s.clone()),
            None => Document::Null,
        }
    }

    /// A truth value, or the absent value.
    pub fn optional_flag(flag: &Option<bool>) -> (r: Document)
        ensures
            r@ == optional_flag(*flag),
    {
        match flag {
            Some(b) => Document::Bool(*b),
            None => Document::Null,
        }
    }

    /// A list of texts.
    pub fn text_list(texts: &Vec<String>) -> (r: Document)
        ensures
            r@ == text_list(texts@),
    {
        let mut items: Vec<Document> = Vec::new();
        let mut i: usize = 0;
        while i < texts.len()
            invariant
                i <= texts.len(),
                items@.len() == i,
                forall|k: int| 0 <= k < i ==> (#[trigger] items@[k])@ == DocumentView::Text(texts@[k]@),
            decreases texts.len() - i,
        {
            items.push(Document::Text(texts[i].clone()));
            i = i + 1;
        }
        let r = Document::List(items);
        assert(r@->List_0 =~= text_list(texts@)->List_0);
        r
    }
}

/// The fields of a record, by their views.
pub open spec fn fields_view(fields: Seq<(String, Document)>) -> Seq<(Seq<char>, DocumentView)> {
    Seq::new(fields.len(), |i: int| (fields[i].0@, fields[i].1@))
}

/// Puts a field at the end of the fields of a record.
pub fn push_field(fields: &mut Vec<(String, Document)>, name: &str, value: Document)
    ensures
        fields_view(final(fields)@) == fields_view(old(fields)@).push((name@, value@)),
{
    fields.push((String::from_str(name), value));
}

/// The record of the given fields.
pub fn record_of(fields: Vec<(String, Document)>) -> (r: Document)
    ensures
        r@ == DocumentView::Record(fields_view(fields@)),
{
    let r = Document::Record(fields);
    assert(r@->Record_0 =~= fields_view(fields@));
    r
}

} // verus!
