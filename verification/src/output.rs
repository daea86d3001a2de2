//! The result of a check and the shape in which it is serialized.
//!
//! Each of `misc`, `mx` and `smtp` is serialized as its details where the
//! sub-check went through, and as an error object where it failed. An error
//! object names the kind of error and gives its text. The error object of
//! `smtp`, and no other, has one field more, `description`, where the
//! failure has a known cause; where it has none, the field is left out.

use vstd::prelude::*;

use crate::classify::SmtpErrorDesc;
use crate::document::{fields_view, push_field, record_of, Document, DocumentView};
use crate::misc::{MiscDetails, MiscError};
use crate::mx::{MxDetails, MxError};
use crate::smtp::{SmtpDetails, SmtpError};
use crate::syntax::SyntaxDetails;
use crate::verdict::{calculate_reachable, spec_calculate_reachable, Reachable};

verus! {

/// A failed sub-check as it is serialized.
#[derive(Debug, Clone)]
pub struct ErrorObject {
    /// The name of the kind of error.
    pub kind: String,
    /// The text of the error.
    pub message: String,
    /// The known cause, which only a failed dialogue can have.
    pub description: Option<SmtpErrorDesc>,
}

/// The record of an error: the kind and text of the error under `error`,
/// then the cause under `description` where there is one.
pub open spec fn error_document(
    kind: Seq<char>,
    message: Seq<char>,
    description: Option<SmtpErrorDesc>,
) -> DocumentView {
    let error = DocumentView::Record(
        seq![("type"@, DocumentView::Text(kind)), ("message"@, DocumentView::Text(message))],
    );
    match description {
        Some(cause) => DocumentView::Record(
            seq![("error"@, error), ("description"@, DocumentView::Text(cause.spec_name()))],
        ),
        None => DocumentView::Record(seq![("error"@, error)]),
    }
}

impl ErrorObject {
    /// The record that is serialized.
    pub open spec fn spec_document(&self) -> DocumentView {
        error_document(self.kind@, self.message@, self.description)
    }

    /// The error object of a failed lookup of facts: it has no cause.
    pub fn of_misc(error: &MiscError) -> (r: ErrorObject)
        ensures
            r.kind@ == error.spec_kind(),
            r.message@ == error.spec_message(),
            r.description is None,
    {
        ErrorObject { kind: error.kind(), message: error.message(), description: None }
    }

    /// The error object of a failed lookup of mail exchangers: it has no
    /// cause.
    pub fn of_mx(error: &MxError) -> (r: ErrorObject)
        ensures
            r.kind@ == error.spec_kind(),
            r.message@ == error.spec_message(),
            r.description is None,
    {
        ErrorObject { kind: error.kind(), message: error.message(), description: None }
    }

    /// The error object of a failed dialogue, with the known cause of the
    /// failure, if it has one.
    pub fn of_smtp(error: &SmtpError) -> (r: ErrorObject)
        ensures
            r.kind@ == error.spec_kind(),
            r.message@ == error.spec_message(),
            r.description == error.spec_description(),
    {
        ErrorObject {
            kind: error.kind(),
            message: error.message(),
            description: error.get_description(),
        }
    }

    /// The record that is serialized.
    pub fn to_document(&self) -> (r: Document)
        ensures
            r@ == self.spec_document(),
    {
        let mut error: Vec<(String, Document)> = Vec::new();
        push_field(&mut error, "type", Document::text(self.kind.as_str()));
        push_field(&mut error, "message", Document::text(self.message.as_str()));
        assert(fields_view(error@) =~= seq![
            ("type"@, DocumentView::Text(self.kind@)),
            ("message"@, DocumentView::Text(self.message@)),
        ]);
        let mut fields: Vec<(String, Document)> = Vec::new();
        push_field(&mut fields, "error", record_of(error));
        match self.description {
            Some(cause) => {
                let name = cause.name();
                push_field(&mut fields, "description", Document::text(name.as_str()));
            },
            None => {},
        }
        assert(fields_view(fields@) =~= self.spec_document()->Record_0);
        record_of(fields)
    }
}

/// The result of a check.
#[derive(Debug)]
pub struct CheckEmailOutput {
    /// The address as the caller gave it.
    pub input: String,
    /// The verdict.
    pub is_reachable: Reachable,
    /// Facts about the address that do not come from its mail server.
    pub misc: Result<MiscDetails, MiscError>,
    /// The mail exchangers of the domain.
    pub mx: Result<MxDetails, MxError>,
    /// What the mail server said of the address.
    pub smtp: Result<SmtpDetails, SmtpError>,
    /// The parts of the address.
    pub syntax: SyntaxDetails,
}

impl Default for CheckEmailOutput {
    fn default() -> (r: Self)
        ensures
            r.input@ == Seq::<char>::empty(),
            r.is_reachable == Reachable::Unknown,
            r.is_blank(),
    {
        CheckEmailOutput {
            input: String::new(),
            is_reachable: Reachable::Unknown,
            misc: Ok(MiscDetails::default()),
            mx: Ok(MxDetails::default()),
            smtp: Ok(SmtpDetails::default()),
            syntax: SyntaxDetails::default(),
        }
    }
}

/// The serialized form of `misc`.
pub open spec fn misc_document(misc: Result<MiscDetails, MiscError>) -> DocumentView {
    match misc {
        Ok(details) => details.spec_document(),
        Err(error) => error_document(error.spec_kind(), error.spec_message(), None),
    }
}

/// The serialized form of `mx`.
pub open spec fn mx_document(mx: Result<MxDetails, MxError>) -> DocumentView {
    match mx {
        Ok(details) => details.spec_document(),
        Err(error) => error_document(error.spec_kind(), error.spec_message(), None),
    }
}

/// The serialized form of `smtp`.
pub open spec fn smtp_document(smtp: Result<SmtpDetails, SmtpError>) -> DocumentView {
    match smtp {
        Ok(details) => details.spec_document(),
        Err(error) => error_document(
            error.spec_kind(),
            error.spec_message(),
            error.spec_description(),
        ),
    }
}

/// The facts of a lookup that was not made: a success that holds nothing.
pub open spec fn blank_misc(misc: Result<MiscDetails, MiscError>) -> bool {
    misc matches Ok(details) && !details.is_disposable && !details.is_role_account
        && details.gravatar_url is None && details.haveibeenpwned is None
}

/// The mail exchangers of a lookup that was not made: a success that holds
/// nothing.
pub open spec fn blank_mx(mx: Result<MxDetails, MxError>) -> bool {
    mx matches Ok(details) && details.records@.len() == 0
}

/// The details of a dialogue that was not held: a success that holds
/// nothing.
pub open spec fn blank_smtp(smtp: Result<SmtpDetails, SmtpError>) -> bool {
    smtp matches Ok(details) && !details.can_connect_smtp && !details.has_full_inbox
        && !details.is_catch_all && !details.is_deliverable && !details.is_disabled
}

/// The parts of an address that was not parsed.
pub open spec fn blank_syntax(syntax: SyntaxDetails) -> bool {
    &&& syntax.address is None
    &&& syntax.domain@.len() == 0
    &&& !syntax.is_valid_syntax
    &&& syntax.username@.len() == 0
    &&& syntax.normalized_email is None
    &&& syntax.suggestion is None
}

/// The result of a check with the given sub-results: the verdict is the one
/// that they give.
pub open spec fn spec_assemble(
    input: String,
    syntax: SyntaxDetails,
    mx: Result<MxDetails, MxError>,
    misc: Result<MiscDetails, MiscError>,
    smtp: Result<SmtpDetails, SmtpError>,
) -> CheckEmailOutput {
    CheckEmailOutput {
        input,
        is_reachable: spec_calculate_reachable(syntax, mx, misc, smtp),
        misc,
        mx,
        smtp,
        syntax,
    }
}

impl CheckEmailOutput {
    /// Every sub-result is a success that holds nothing.
    pub open spec fn is_blank(&self) -> bool {
        &&& blank_misc(self.misc)
        &&& blank_mx(self.mx)
        &&& blank_smtp(self.smtp)
        &&& blank_syntax(self.syntax)
    }

    /// The record that is serialized: the input, the verdict by its name,
    /// then `misc`, `mx`, `smtp` and `syntax`.
    pub open spec fn spec_document(&self) -> DocumentView {
        DocumentView::Record(
            seq![
                ("input"@, DocumentView::Text(self.input@)),
                ("is_reachable"@, DocumentView::Text(self.is_reachable.spec_name())),
                ("misc"@, misc_document(self.misc)),
                ("mx"@, mx_document(self.mx)),
                ("smtp"@, smtp_document(self.smtp)),
                ("syntax"@, self.syntax.spec_document()),
            ],
        )
    }

    /// The result of a check from its four sub-results, with the verdict
    /// that they give.
    pub fn assemble(
        input: String,
        syntax: SyntaxDetails,
        mx: Result<MxDetails, MxError>,
        misc: Result<MiscDetails, MiscError>,
        smtp: Result<SmtpDetails, SmtpError>,
    ) -> (r: CheckEmailOutput)
        ensures
            r == spec_assemble(input, syntax, mx, misc, smtp),
    {
        let is_reachable = calculate_reachable(&syntax, &mx, &misc, &smtp);
        CheckEmailOutput { input, is_reachable, misc, mx, smtp, syntax }
    }

    /// The record that is serialized.
    pub fn to_document(&self) -> (r: Document)
        ensures
            r@ == self.spec_document(),
    {
        let misc = match &self.misc {
            Ok(details) => details.to_document(),
            Err(error) => ErrorObject::of_misc(error).to_document(),
        };
        let mx = match &self.mx {
            Ok(details) => details.to_document(),
            Err(error) => ErrorObject::of_mx(error).to_document(),
        };
        let smtp = match &self.smtp {
            Ok(details) => details.to_document(),
            Err(error) => ErrorObject::of_smtp(error).to_document(),
        };
        let verdict = self.is_reachable.name();
        let mut fields: Vec<(String, Document)> = Vec::new();
        push_field(&mut fields, "input", Document::text(self.input.as_str()));
        push_field(&mut fields, "is_reachable", Document::text(verdict.as_str()));
        push_field(&mut fields, "misc", misc);
        push_field(&mut fields, "mx", mx);
        push_field(&mut fields, "smtp", smtp);
        push_field(&mut fields, "syntax", self.syntax.to_document());
        assert(fields_view(fields@) =~= self.spec_document()->Record_0);
        record_of(fields)
    }
}

/// No name of a field of the details of a sub-check, and no other name that
/// an error object uses, is `description`.
proof fn lemma_names_differ()
    ensures
        "error"@ != "description"@,
        "is_disposable"@ != "description"@,
        "is_role_account"@ != "description"@,
        "gravatar_url"@ != "description"@,
        "haveibeenpwned"@ != "description"@,
        "accepts_mail"@ != "description"@,
        "records"@ != "description"@,
        "can_connect_smtp"@ != "description"@,
        "has_full_inbox"@ != "description"@,
        "is_catch_all"@ != "description"@,
        "is_deliverable"@ != "description"@,
        "is_disabled"@ != "description"@,
        "address"@ != "description"@,
        "domain"@ != "description"@,
        "is_valid_syntax"@ != "description"@,
        "username"@ != "description"@,
        "normalized_email"@ != "description"@,
        "suggestion"@ != "description"@,
{
    reveal_strlit("description");
    reveal_strlit("error");
    reveal_strlit("is_disposable");
    reveal_strlit("is_role_account");
    reveal_strlit("gravatar_url");
    reveal_strlit("haveibeenpwned");
    reveal_strlit("accepts_mail");
    reveal_strlit("records");
    reveal_strlit("can_connect_smtp");
    reveal_strlit("has_full_inbox");
    reveal_strlit("is_catch_all");
    reveal_strlit("is_deliverable");
    reveal_strlit("is_disabled");
    reveal_strlit("address");
    reveal_strlit("domain");
    reveal_strlit("is_valid_syntax");
    reveal_strlit("username");
    reveal_strlit("normalized_email");
    reveal_strlit("suggestion");
    // All names but one differ from `description` in length.
    assert("description"@.len() == 11);
    assert("error"@.len() == 5);
    assert("is_disposable"@.len() == 13);
    assert("is_role_account"@.len() == 15);
    assert("gravatar_url"@.len() == 12);
    assert("haveibeenpwned"@.len() == 14);
    assert("accepts_mail"@.len() == 12);
    assert("records"@.len() == 7);
    assert("can_connect_smtp"@.len() == 16);
    assert("has_full_inbox"@.len() == 14);
    assert("is_catch_all"@.len() == 12);
    assert("is_deliverable"@.len() == 14);
    assert("address"@.len() == 7);
    assert("domain"@.len() == 6);
    assert("is_valid_syntax"@.len() == 15);
    assert("username"@.len() == 8);
    assert("normalized_email"@.len() == 16);
    assert("suggestion"@.len() == 10);
    assert("is_disabled"@[0] != "description"@[0]);
}

/// An error object has the field `description` exactly where it has a cause,
/// and the field then holds the name of the cause.
pub proof fn lemma_error_description(
    kind: Seq<char>,
    message: Seq<char>,
    description: Option<SmtpErrorDesc>,
)
    ensures
        error_document(kind, message, description).has_field("description"@)
            <==> description is Some,
        description matches Some(cause) ==> error_document(kind, message, description).field_names()
            == seq!["error"@, "description"@] && error_document(
            kind,
            message,
            description,
        ).field_value(1) == DocumentView::Text(cause.spec_name()),
        description is None ==> error_document(kind, message, description).field_names()
            == seq!["error"@],
{
    lemma_names_differ();
}

/// In the serialized form of an output, the fields are `input`,
/// `is_reachable`, `misc`, `mx`, `smtp` and `syntax`, in this order. The
/// field `description` stands under `smtp` exactly where the dialogue failed
/// with a reply that has a known cause, and it stands under none of `misc`,
/// `mx` and `syntax`, whatever they hold.
pub proof fn lemma_description_only_for_smtp(output: CheckEmailOutput)
    ensures
        output.spec_document().field_names() == seq![
            "input"@,
            "is_reachable"@,
            "misc"@,
            "mx"@,
            "smtp"@,
            "syntax"@,
        ],
        output.spec_document().field_value(2) == misc_document(output.misc),
        output.spec_document().field_value(3) == mx_document(output.mx),
        output.spec_document().field_value(4) == smtp_document(output.smtp),
        output.spec_document().field_value(5) == output.syntax.spec_document(),
        !misc_document(output.misc).has_field("description"@),
        !mx_document(output.mx).has_field("description"@),
        !output.syntax.spec_document().has_field("description"@),
        smtp_document(output.smtp).has_field("description"@) <==> (output.smtp matches Err(error)
            && error.spec_description() is Some),
{
    lemma_names_differ();
    match output.misc {
        Ok(details) => {},
        Err(error) => {
            lemma_error_description(error.spec_kind(), error.spec_message(), None);
        },
    }
    match output.mx {
        Ok(details) => {},
        Err(error) => {
            lemma_error_description(error.spec_kind(), error.spec_message(), None);
        },
    }
    match output.smtp {
        Ok(details) => {},
        Err(error) => {
            lemma_error_description(
                error.spec_kind(),
                error.spec_message(),
                error.spec_description(),
            );
        },
    }
}

} // verus!
