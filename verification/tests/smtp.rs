use std::io;

use async_smtp::smtp::error::Error;
use async_smtp::smtp::response::{Category, Code, Detail, Response, Severity};
use check_if_email_exists::{DialogueError, SmtpDetails, SmtpError, SmtpErrorDesc};

fn reply(severity: Severity, lines: &[&str]) -> Response {
    Response::new(
        Code { severity, category: Category::MailSystem, detail: Detail::Zero },
        lines.iter().map(|line| line.to_string()).collect(),
    )
}

fn lines(texts: &[&str]) -> Vec<String> {
    texts.iter().map(|text| text.to_string()).collect()
}

#[test]
fn default_details_hold_nothing() {
    let details = SmtpDetails::default();
    assert!(!details.can_connect_smtp);
    assert!(!details.has_full_inbox);
    assert!(!details.is_catch_all);
    assert!(!details.is_deliverable);
    assert!(!details.is_disabled);
}

#[test]
fn a_transient_reply_keeps_its_lines() {
    let error: Error = reply(Severity::TransientNegativeCompletion, &["try later", "bye"]).into();
    match SmtpError::from_client_error(&error) {
        SmtpError::SmtpError(DialogueError::Transient(kept)) => {
            assert_eq!(kept, lines(&["try later", "bye"]))
        }
        other => panic!("a transient reply became {:?}", other),
    }
}

#[test]
fn a_permanent_reply_keeps_its_lines() {
    let error: Error = reply(Severity::PermanentNegativeCompletion, &["no such user"]).into();
    match SmtpError::from_client_error(&error) {
        SmtpError::SmtpError(DialogueError::Permanent(kept)) => {
            assert_eq!(kept, lines(&["no such user"]))
        }
        other => panic!("a permanent reply became {:?}", other),
    }
}

#[test]
fn other_client_errors_keep_their_text() {
    let refused = Error::Io(io::Error::new(io::ErrorKind::ConnectionRefused, "refused"));
    match SmtpError::from_client_error(&refused) {
        SmtpError::SmtpError(DialogueError::Io(text)) => assert_eq!(text, refused.to_string()),
        other => panic!("an io error became {:?}", other),
    }
    let client = Error::Client("no banner");
    match SmtpError::from_client_error(&client) {
        SmtpError::SmtpError(DialogueError::Client(text)) => assert_eq!(text, "client: no banner"),
        other => panic!("a client error became {:?}", other),
    }
    let positive: Error = reply(Severity::PositiveCompletion, &["ok"]).into();
    match SmtpError::from_client_error(&positive) {
        SmtpError::SmtpError(DialogueError::Client(text)) => {
            assert_eq!(text, "client: Unknown error code")
        }
        other => panic!("a positive reply became {:?}", other),
    }
    match SmtpError::from_client_error(&Error::Resolution) {
        SmtpError::SmtpError(DialogueError::Client(text)) => {
            assert_eq!(text, "could not resolve hostname")
        }
        other => panic!("a resolution error became {:?}", other),
    }
}

#[test]
fn the_message_of_a_reply_is_as_the_client_displays_it() {
    let replies = [
        reply(Severity::TransientNegativeCompletion, &["try later", "bye"]),
        reply(Severity::TransientNegativeCompletion, &[]),
        reply(Severity::PermanentNegativeCompletion, &["no such user"]),
        reply(Severity::PermanentNegativeCompletion, &[]),
    ];
    for reply in replies {
        let error: Error = reply.into();
        assert_eq!(SmtpError::from_client_error(&error).message(), error.to_string());
    }
}

#[test]
fn the_message_of_any_other_client_error_is_as_the_client_displays_it() {
    let errors = vec![
        Error::Io(io::Error::new(io::ErrorKind::ConnectionRefused, "refused")),
        Error::Client("no banner"),
        Error::ResponseParsing("incomplete response"),
        Error::Resolution,
        Error::NoStream,
        Error::NoServerInfo,
    ];
    for error in errors {
        assert_eq!(SmtpError::from_client_error(&error).message(), error.to_string());
    }
}

#[test]
fn messages_of_replies() {
    let transient = SmtpError::SmtpError(DialogueError::Transient(lines(&["try later", "bye"])));
    assert_eq!(transient.message(), "transient: try later");
    let permanent = SmtpError::SmtpError(DialogueError::Permanent(lines(&["no such user"])));
    assert_eq!(permanent.message(), "permanent: no such user");
    let silent = SmtpError::SmtpError(DialogueError::Transient(Vec::new()));
    assert_eq!(silent.message(), "transient: undetailed error during SMTP transaction");
    let silent = SmtpError::SmtpError(DialogueError::Permanent(Vec::new()));
    assert_eq!(silent.message(), "permanent: undetailed error during SMTP transaction");
}

#[test]
fn messages_of_the_other_errors() {
    assert_eq!(SmtpError::SocksError("proxy refused".to_string()).message(), "proxy refused");
    assert_eq!(SmtpError::TimeoutError("deadline passed".to_string()).message(), "deadline passed");
    assert_eq!(SmtpError::YahooError("no answer".to_string()).message(), "no answer");
    assert_eq!(SmtpError::GmailError("no answer".to_string()).message(), "no answer");
    assert_eq!(SmtpError::HeadlessError("no driver".to_string()).message(), "no driver");
    assert_eq!(SmtpError::Microsoft365Error("no answer".to_string()).message(), "no answer");
    assert_eq!(
        SmtpError::SmtpError(DialogueError::Tls("tls: handshake".to_string())).message(),
        "tls: handshake"
    );
    assert_eq!(
        SmtpError::SkippedDomain("mx.zoho.com.".to_string()).message(),
        "verification skipped for mail server mx.zoho.com."
    );
}

#[test]
fn kinds_are_the_names_of_the_variants() {
    assert_eq!(SmtpError::SocksError(String::new()).kind(), "SocksError");
    assert_eq!(SmtpError::SmtpError(DialogueError::Io(String::new())).kind(), "SmtpError");
    assert_eq!(SmtpError::TimeoutError(String::new()).kind(), "TimeoutError");
    assert_eq!(SmtpError::YahooError(String::new()).kind(), "YahooError");
    assert_eq!(SmtpError::GmailError(String::new()).kind(), "GmailError");
    assert_eq!(SmtpError::HeadlessError(String::new()).kind(), "HeadlessError");
    assert_eq!(SmtpError::Microsoft365Error(String::new()).kind(), "Microsoft365Error");
    assert_eq!(SmtpError::SkippedDomain(String::new()).kind(), "SkippedDomain");
}

#[test]
fn only_a_reply_has_a_cause() {
    let transient = SmtpError::SmtpError(DialogueError::Transient(lines(&["blacklist"])));
    assert_eq!(transient.get_description(), Some(SmtpErrorDesc::IpBlacklisted));
    let permanent = SmtpError::SmtpError(DialogueError::Permanent(lines(&["no PTR record"])));
    assert_eq!(permanent.get_description(), Some(SmtpErrorDesc::NeedsRDNS));
    let unknown = SmtpError::SmtpError(DialogueError::Permanent(lines(&["foobar"])));
    assert_eq!(unknown.get_description(), None);

    let others = vec![
        SmtpError::SocksError("blacklist".to_string()),
        SmtpError::TimeoutError("blacklist".to_string()),
        SmtpError::YahooError("blacklist".to_string()),
        SmtpError::GmailError("blacklist".to_string()),
        SmtpError::HeadlessError("blacklist".to_string()),
        SmtpError::Microsoft365Error("blacklist".to_string()),
        SmtpError::SkippedDomain("blacklist".to_string()),
        SmtpError::SmtpError(DialogueError::Io("blacklist".to_string())),
        SmtpError::SmtpError(DialogueError::Tls("blacklist".to_string())),
        SmtpError::SmtpError(DialogueError::Timeout("blacklist".to_string())),
        SmtpError::SmtpError(DialogueError::Client("blacklist".to_string())),
    ];
    for error in others {
        assert_eq!(error.get_description(), None, "{:?}", error);
    }
}

#[test]
fn what_a_retry_may_mend() {
    let mendable = vec![
        SmtpError::SocksError("proxy refused".to_string()),
        SmtpError::TimeoutError("deadline passed".to_string()),
        SmtpError::SmtpError(DialogueError::Transient(lines(&["greylisted"]))),
        SmtpError::SmtpError(DialogueError::Io("io: reset".to_string())),
        SmtpError::SmtpError(DialogueError::Tls("tls: handshake".to_string())),
        SmtpError::SmtpError(DialogueError::Timeout("timeout: elapsed".to_string())),
        SmtpError::SmtpError(DialogueError::Client("client: no banner".to_string())),
    ];
    for error in mendable {
        assert!(error.is_retryable(), "{:?}", error);
    }
    let final_ones = vec![
        SmtpError::SmtpError(DialogueError::Permanent(lines(&["no such user"]))),
        SmtpError::SkippedDomain("mx.zoho.com.".to_string()),
        SmtpError::YahooError("no answer".to_string()),
        SmtpError::GmailError("no answer".to_string()),
        SmtpError::HeadlessError("no driver".to_string()),
        SmtpError::Microsoft365Error("no answer".to_string()),
    ];
    for error in final_ones {
        assert!(!error.is_retryable(), "{:?}", error);
    }
}
