//! What the dialogue with a mail server gives: the details of a dialogue that
//! went through, or the failure that ended it.

use async_smtp::smtp::error::Error;
use vstd::prelude::*;
use vstd::string::StringExecFns;

use crate::classify::{classify, spec_classify, SmtpErrorDesc};
use crate::document::{fields_view, push_field, record_of, Document, DocumentView};

verus! {

/// `async_smtp::smtp::error::Error`: every error of the SMTP client.
#[verifier::external_type_specification]
#[verifier::external_body]
pub struct ExError(Error);

/// What the mail server said of the address.
#[derive(Debug, Clone, Copy, PartialEq, Eq, Structural)]
pub struct SmtpDetails {
    /// Whether the server could be connected to.
    pub can_connect_smtp: bool,
    /// Whether the mailbox is full.
    pub has_full_inbox: bool,
    /// Whether the server accepts mail for any address of the domain, so
    /// that its accepting this one tells nothing.
    pub is_catch_all: bool,
    /// Whether the server accepted this very recipient.
    pub is_deliverable: bool,
    /// Whether the mailbox has been disabled.
    pub is_disabled: bool,
}

impl Default for SmtpDetails {
    fn default() -> (r: Self)
        ensures
            r == (SmtpDetails {
                can_connect_smtp: false,
                has_full_inbox: false,
                is_catch_all: false,
                is_deliverable: false,
                is_disabled: false,
            }),
    {
        SmtpDetails {
            can_connect_smtp: false,
            has_full_inbox: false,
            is_catch_all: false,
            is_deliverable: false,
            is_disabled: false,
        }
    }
}

impl SmtpDetails {
    /// The record that is serialized: the five fields in the order of their
    /// declaration.
    pub open spec fn spec_document(&self) -> DocumentView {
        DocumentView::Record(
            seq![
                ("can_connect_smtp"@, DocumentView::Bool(self.can_connect_smtp)),
                ("has_full_inbox"@, DocumentView::Bool(self.has_full_inbox)),
                ("is_catch_all"@, DocumentView::Bool(self.is_catch_all)),
                ("is_deliverable"@, DocumentView::Bool(self.is_deliverable)),
                ("is_disabled"@, DocumentView::Bool(self.is_disabled)),
            ],
        )
    }

    /// The record that is serialized.
    pub fn to_document(&self) -> (r: Document)
        ensures
            r@ == self.spec_document(),
    {
        let mut fields: Vec<(String, Document)> = Vec::new();
        push_field(&mut fields, "can_connect_smtp", Document::Bool(self.can_connect_smtp));
        push_field(&mut fields, "has_full_inbox", Document::Bool(self.has_full_inbox));
        push_field(&mut fields, "is_catch_all", Document::Bool(self.is_catch_all));
        push_field(&mut fields, "is_deliverable", Document::Bool(self.is_deliverable));
        push_field(&mut fields, "is_disabled", Document::Bool(self.is_disabled));
        assert(fields_view(fields@) =~= self.spec_document()->Record_0);
        record_of(fields)
    }
}

/// A failure of the SMTP client, by what the library reads of it.
#[derive(Debug, Clone)]
pub enum DialogueError {
    /// The server answered with a 4xx code; the lines of its reply.
    Transient(Vec<String>),
    /// The server answered with a 5xx code; the lines of its reply.
    Permanent(Vec<String>),
    /// The connection was refused or broke; the text of the error.
    Io(String),
    /// TLS could not be negotiated; the text of the error.
    Tls(String),
    /// The server did not answer in time; the text of the error.
    Timeout(String),
    /// Any other failure of the client; the text of the error.
    Client(String),
}

/// The first line of a reply, or a fixed text where the reply has no line.
pub open spec fn first_line(lines: Seq<Seq<char>>) -> Seq<char> {
    if lines.len() > 0 {
        lines[0]
    } else {
        "undetailed error during SMTP transaction"@
    }
}

impl DialogueError {
    /// The lines of the server's reply, where the failure is a reply.
    pub open spec fn spec_reply(&self) -> Option<Seq<Seq<char>>> {
        match self {
            DialogueError::Transient(lines) => Some(lines.deep_view()),
            DialogueError::Permanent(lines) => Some(lines.deep_view()),
            _ => None,
        }
    }

    /// The text of the failure, as the SMTP client displays it: for a reply
    /// its severity and first line.
    pub open spec fn spec_message(&self) -> Seq<char> {
        match self {
            DialogueError::Transient(lines) => "transient: "@ + first_line(lines.deep_view()),
            DialogueError::Permanent(lines) => "permanent: "@ + first_line(lines.deep_view()),
            DialogueError::Io(text) => text@,
            DialogueError::Tls(text) => text@,
            DialogueError::Timeout(text) => text@,
            DialogueError::Client(text) => text@,
        }
    }

    /// The text of the failure: for a reply its severity and first line.
    pub fn message(&self) -> (r: String)
        ensures
            r@ == self.spec_message(),
    {
        match self {
            DialogueError::Transient(lines) => reply_message("transient: ", lines),
            DialogueError::Permanent(lines) => reply_message("permanent: ", lines),
            DialogueError::Io(text) => text.clone(),
            DialogueError::Tls(text) => text.clone(),
            DialogueError::Timeout(text) => text.clone(),
            DialogueError::Client(text) => text.clone(),
        }
    }
}

/// `prefix` followed by the first line of a reply.
fn reply_message(prefix: &str, lines: &Vec<String>) -> (r: String)
    ensures
        r@ == prefix@ + first_line(lines.deep_view()),
{
    let mut r = String::from_str(prefix);
    if lines.len() > 0 {
        r.append(lines[0].as_str());
    } else {
        r.append("undetailed error during SMTP transaction");
    }
    r
}

/// The SMTP client displays the error as `text`: `text` is what `to_string`
/// gives for it.
pub open spec fn displays_as(error: &Error, text: Seq<char>) -> bool {
    exists|s: String|
        s@ == text && #[trigger] vstd::string::to_string_from_display_ensures::<Error>(error, s)
}

/// Tells the variants of `async_smtp::smtp::error::Error` apart. Of a 4xx
/// or 5xx reply it keeps the lines, of any other error the text that the
/// error displays as. Either way the message of the result is the text that
/// the error displays as: the client displays a reply as `transient: ` or
/// `permanent: ` followed by the first line of the reply, or by
/// `undetailed error during SMTP transaction` where the reply has no line.
/// Which variant comes out, and with which lines, is not claimed: the error
/// is opaque to the verifier.
#[verifier::external_body]
fn dialogue_error_of(error: &Error) -> (r: DialogueError)
    ensures
        displays_as(error, r.spec_message()),
{
    match error {
        Error::Transient(reply) => DialogueError::Transient(reply.message.clone()),
        Error::Permanent(reply) => DialogueError::Permanent(reply.message.clone()),
        Error::Io(_) => DialogueError::Io(error.to_string()),
        Error::Tls(_) => DialogueError::Tls(error.to_string()),
        Error::Timeout(_) => DialogueError::Timeout(error.to_string()),
        _ => DialogueError::Client(error.to_string()),
    }
}

/// Why the address could not be checked with its mail server.
#[derive(Debug, Clone)]
pub enum SmtpError {
    /// The SOCKS5 proxy failed; the text of the error.
    SocksError(String),
    /// The dialogue with the mail server failed.
    SmtpError(DialogueError),
    /// The attempt took longer than the time allowed; the text of the error.
    TimeoutError(String),
    /// Yahoo's API failed; the text of the error.
    YahooError(String),
    /// Gmail's API failed; the text of the error.
    GmailError(String),
    /// The headless navigator failed; the text of the error.
    HeadlessError(String),
    /// OneDrive's API failed; the text of the error.
    Microsoft365Error(String),
    /// The mail exchanger is on the list of skipped domains and was not
    /// connected to; the name of the host.
    SkippedDomain(String),
}

impl SmtpError {
    /// The name of the kind of error.
    pub open spec fn spec_kind(&self) -> Seq<char> {
        match self {
            SmtpError::SocksError(_) => "SocksError"@,
            SmtpError::SmtpError(_) => "SmtpError"@,
            SmtpError::TimeoutError(_) => "TimeoutError"@,
            SmtpError::YahooError(_) => "YahooError"@,
            SmtpError::GmailError(_) => "GmailError"@,
            SmtpError::HeadlessError(_) => "HeadlessError"@,
            SmtpError::Microsoft365Error(_) => "Microsoft365Error"@,
            SmtpError::SkippedDomain(_) => "SkippedDomain"@,
        }
    }

    /// The text of the error.
    pub open spec fn spec_message(&self) -> Seq<char> {
        match self {
            SmtpError::SocksError(text) => text@,
            SmtpError::SmtpError(error) => error.spec_message(),
            SmtpError::TimeoutError(text) => text@,
            SmtpError::YahooError(text) => text@,
            SmtpError::GmailError(text) => text@,
            SmtpError::HeadlessError(text) => text@,
            SmtpError::Microsoft365Error(text) => text@,
            SmtpError::SkippedDomain(host) => "verification skipped for mail server "@ + host@,
        }
    }

    /// The known cause of the error: that of the server's reply where the
    /// error is a reply with a known cause, and none for any other error.
    pub open spec fn spec_description(&self) -> Option<SmtpErrorDesc> {
        match self {
            SmtpError::SmtpError(error) => match error.spec_reply() {
                Some(lines) => spec_classify(lines),
                None => None,
            },
            _ => None,
        }
    }

    /// Whether the error is one after which connecting again may help: a
    /// failure of the transport or a 4xx reply. A 5xx reply is final, and the
    /// other errors do not come from a connection.
    pub open spec fn spec_is_retryable(&self) -> bool {
        match self {
            SmtpError::SocksError(_) => true,
            SmtpError::SmtpError(error) => !(error is Permanent),
            SmtpError::TimeoutError(_) => true,
            _ => false,
        }
    }

    /// The error for a failure of the SMTP client: a failure of the dialogue
    /// whose message is the text that the client displays the failure as.
    pub fn from_client_error(error: &Error) -> (r: SmtpError)
        ensures
            r is SmtpError,
            displays_as(error, r.spec_message()),
    {
        SmtpError::SmtpError(dialogue_error_of(error))
    }

    /// The name of the kind of error.
    pub fn kind(&self) -> (r: String)
        ensures
            r@ == self.spec_kind(),
    {
        match self {
            SmtpError::SocksError(_) => String::from_str("SocksError"),
            SmtpError::SmtpError(_) => String::from_str("SmtpError"),
            SmtpError::TimeoutError(_) => String::from_str("TimeoutError"),
            SmtpError::YahooError(_) => String::from_str("YahooError"),
            SmtpError::GmailError(_) => String::from_str("GmailError"),
            SmtpError::HeadlessError(_) => String::from_str("HeadlessError"),
            SmtpError::Microsoft365Error(_) => String::from_str("Microsoft365Error"),
            SmtpError::SkippedDomain(_) => String::from_str("SkippedDomain"),
        }
    }

    /// The text of the error.
    pub fn message(&self) -> (r: String)
        ensures
            r@ == self.spec_message(),
    {
        match self {
            SmtpError::SocksError(text) => text.clone(),
            SmtpError::SmtpError(error) => error.message(),
            SmtpError::TimeoutError(text) => text.clone(),
            SmtpError::YahooError(text) => text.clone(),
            SmtpError::GmailError(text) => text.clone(),
            SmtpError::HeadlessError(text) => text.clone(),
            SmtpError::Microsoft365Error(text) => text.clone(),
            SmtpError::SkippedDomain(host) => {
                let mut r = String::from_str("verification skipped for mail server ");
                r.append(host.as_str());
                r
            },
        }
    }

    /// The known cause of the error, if it has one.
    pub fn get_description(&self) -> (r: Option<SmtpErrorDesc>)
        ensures
            r == self.spec_description(),
    {
        match self {
            SmtpError::SmtpError(DialogueError::Transient(lines)) => classify(lines),
            SmtpError::SmtpError(DialogueError::Permanent(lines)) => classify(lines),
            _ => None,
        }
    }

    /// Whether the error is one after which connecting again may help.
    pub fn is_retryable(&self) -> (r: bool)
        ensures
            r == self.spec_is_retryable(),
    {
        match self {
            SmtpError::SocksError(_) => true,
            SmtpError::SmtpError(DialogueError::Permanent(_)) => false,
            SmtpError::SmtpError(_) => true,
            SmtpError::TimeoutError(_) => true,
            _ => false,
        }
    }
}

} // verus!
