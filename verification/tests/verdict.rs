use check_if_email_exists::{
    calculate_reachable, DialogueError, MiscDetails, MiscError, MxDetails, MxError, Reachable,
    SmtpDetails, SmtpError, SyntaxDetails,
};

fn valid_syntax() -> SyntaxDetails {
    SyntaxDetails {
        address: Some("someone@example.org".to_string()),
        domain: "example.org".to_string(),
        is_valid_syntax: true,
        username: "someone".to_string(),
        normalized_email: Some("someone@example.org".to_string()),
        suggestion: None,
    }
}

fn resolved() -> Result<MxDetails, MxError> {
    Ok(MxDetails { records: vec!["mx.example.org.".to_string()] })
}

fn accepted() -> SmtpDetails {
    SmtpDetails {
        can_connect_smtp: true,
        has_full_inbox: false,
        is_catch_all: false,
        is_deliverable: true,
        is_disabled: false,
    }
}

fn plain() -> Result<MiscDetails, MiscError> {
    Ok(MiscDetails::default())
}

#[test]
fn invalid_syntax_is_invalid_whatever_else() {
    let syntax = SyntaxDetails::default();
    assert_eq!(
        calculate_reachable(&syntax, &resolved(), &plain(), &Ok(accepted())),
        Reachable::Invalid
    );
    let failed = Err(SmtpError::TimeoutError("timeout".to_string()));
    assert_eq!(calculate_reachable(&syntax, &resolved(), &plain(), &failed), Reachable::Invalid);
}

#[test]
fn failed_lookup_is_invalid() {
    let mx = Err(MxError::ResolveError("no record found".to_string()));
    assert_eq!(
        calculate_reachable(&valid_syntax(), &mx, &plain(), &Ok(accepted())),
        Reachable::Invalid
    );
}

#[test]
fn no_mail_exchanger_is_invalid() {
    let mx = Ok(MxDetails::default());
    assert_eq!(
        calculate_reachable(&valid_syntax(), &mx, &plain(), &Ok(accepted())),
        Reachable::Invalid
    );
}

#[test]
fn accepted_recipient_is_safe() {
    assert_eq!(
        calculate_reachable(&valid_syntax(), &resolved(), &plain(), &Ok(accepted())),
        Reachable::Safe
    );
}

#[test]
fn each_quality_issue_is_risky() {
    let catch_all = SmtpDetails { is_catch_all: true, ..accepted() };
    assert_eq!(
        calculate_reachable(&valid_syntax(), &resolved(), &plain(), &Ok(catch_all)),
        Reachable::Risky
    );
    let full = SmtpDetails { has_full_inbox: true, is_deliverable: false, ..accepted() };
    assert_eq!(
        calculate_reachable(&valid_syntax(), &resolved(), &plain(), &Ok(full)),
        Reachable::Risky
    );
    let disposable = Ok(MiscDetails { is_disposable: true, ..MiscDetails::default() });
    assert_eq!(
        calculate_reachable(&valid_syntax(), &resolved(), &disposable, &Ok(accepted())),
        Reachable::Risky
    );
    let role = Ok(MiscDetails { is_role_account: true, ..MiscDetails::default() });
    assert_eq!(
        calculate_reachable(&valid_syntax(), &resolved(), &role, &Ok(accepted())),
        Reachable::Risky
    );
}

#[test]
fn failed_dialogue_is_unknown() {
    let failures = vec![
        SmtpError::SkippedDomain("mx.zoho.com.".to_string()),
        SmtpError::TimeoutError("timeout".to_string()),
        SmtpError::SocksError("proxy refused".to_string()),
        SmtpError::SmtpError(DialogueError::Transient(vec!["try later".to_string()])),
        SmtpError::SmtpError(DialogueError::Permanent(vec!["foobar".to_string()])),
        SmtpError::SmtpError(DialogueError::Io("io: connection refused".to_string())),
        SmtpError::YahooError("no answer".to_string()),
    ];
    for failure in failures {
        assert_eq!(
            calculate_reachable(&valid_syntax(), &resolved(), &plain(), &Err(failure)),
            Reachable::Unknown
        );
    }
}

#[test]
fn failed_dialogue_is_unknown_even_for_a_role_account() {
    let role = Ok(MiscDetails { is_role_account: true, ..MiscDetails::default() });
    let failed = Err(SmtpError::TimeoutError("timeout".to_string()));
    assert_eq!(
        calculate_reachable(&valid_syntax(), &resolved(), &role, &failed),
        Reachable::Unknown
    );
}

#[test]
fn recipient_not_accepted_is_invalid() {
    let refused = SmtpDetails { is_deliverable: false, ..accepted() };
    assert_eq!(
        calculate_reachable(&valid_syntax(), &resolved(), &plain(), &Ok(refused)),
        Reachable::Invalid
    );
    let disabled = SmtpDetails { is_disabled: true, ..accepted() };
    assert_eq!(
        calculate_reachable(&valid_syntax(), &resolved(), &plain(), &Ok(disabled)),
        Reachable::Invalid
    );
    let unreached = SmtpDetails { can_connect_smtp: false, ..accepted() };
    assert_eq!(
        calculate_reachable(&valid_syntax(), &resolved(), &plain(), &Ok(unreached)),
        Reachable::Invalid
    );
}

#[test]
fn missing_facts_count_as_absent() {
    let misc = Err(MiscError::GravatarError("no answer".to_string()));
    assert_eq!(
        calculate_reachable(&valid_syntax(), &resolved(), &misc, &Ok(accepted())),
        Reachable::Safe
    );
    let catch_all = SmtpDetails { is_catch_all: true, ..accepted() };
    assert_eq!(
        calculate_reachable(&valid_syntax(), &resolved(), &misc, &Ok(catch_all)),
        Reachable::Risky
    );
}

#[test]
fn verdicts_have_lowercase_names() {
    assert_eq!(Reachable::Safe.name(), "safe");
    assert_eq!(Reachable::Risky.name(), "risky");
    assert_eq!(Reachable::Invalid.name(), "invalid");
    assert_eq!(Reachable::Unknown.name(), "unknown");
}
