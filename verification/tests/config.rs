use std::time::Duration;

use async_native_tls::TlsConnector;
use async_smtp::{ClientSecurity, ClientTlsParameters};
use check_if_email_exists::{CheckEmailInput, CheckEmailInputProxy, SmtpSecurity};

fn tls() -> ClientTlsParameters {
    ClientTlsParameters::new("mx.example.org".to_string(), TlsConnector::new())
}

#[test]
fn new_applies_every_default() {
    let input = CheckEmailInput::new("someone@example.org".to_string());
    assert_eq!(input.to_email, "someone@example.org");
    assert_eq!(input.from_email, "reacher.email@gmail.com");
    assert_eq!(input.hello_name, "gmail.com");
    assert!(input.proxy.is_none());
    assert_eq!(input.smtp_port, 25);
    assert_eq!(input.smtp_timeout, Some(Duration::from_secs(12)));
    assert!(input.yahoo_use_api);
    assert!(!input.gmail_use_api);
    assert!(!input.microsoft365_use_api);
    assert!(!input.check_gravatar);
    assert!(input.haveibeenpwned_api_key.is_none());
    assert!(input.hotmail_use_headless.is_none());
    assert_eq!(input.retries, 2);
    assert_eq!(input.smtp_security, SmtpSecurity::Opportunistic);
    assert_eq!(
        input.skipped_domains,
        vec![
            ".bluewin.ch.".to_string(),
            "bluewin-ch.".to_string(),
            ".gmx.net.".to_string(),
            ".mail.icloud.com.".to_string(),
            ".web.de.".to_string(),
            ".zoho.com.".to_string(),
        ]
    );
}

#[test]
fn default_has_an_empty_address_and_the_same_defaults() {
    let input = CheckEmailInput::default();
    assert_eq!(input.to_email, "");
    assert_eq!(input.from_email, "reacher.email@gmail.com");
    assert_eq!(input.hello_name, "gmail.com");
    assert_eq!(input.smtp_port, 25);
    assert_eq!(input.smtp_timeout, Some(Duration::from_secs(12)));
    assert_eq!(input.retries, 2);
    assert!(input.yahoo_use_api);
    assert_eq!(input.skipped_domains.len(), 6);
}

#[test]
fn default_proxy_is_empty() {
    let proxy = CheckEmailInputProxy::default();
    assert_eq!(proxy.host, "");
    assert_eq!(proxy.port, 0);
    assert!(proxy.username.is_none());
    assert!(proxy.password.is_none());
}

#[test]
fn default_security_is_opportunistic() {
    assert_eq!(SmtpSecurity::default(), SmtpSecurity::Opportunistic);
}

#[test]
fn each_setter_changes_its_field() {
    let mut input = CheckEmailInput::new("a@b.c".to_string());
    input.set_from_email("me@example.org".to_string());
    assert_eq!(input.from_email, "me@example.org");
    input.set_hello_name("example.org".to_string());
    assert_eq!(input.hello_name, "example.org");
    input.set_retries(5);
    assert_eq!(input.retries, 5);
    input.set_smtp_port(587);
    assert_eq!(input.smtp_port, 587);
    input.set_smtp_security(SmtpSecurity::Required);
    assert_eq!(input.smtp_security, SmtpSecurity::Required);
    input.set_smtp_timeout(None);
    assert_eq!(input.smtp_timeout, None);
    input.set_smtp_timeout(Some(Duration::from_millis(1500)));
    assert_eq!(input.smtp_timeout, Some(Duration::from_millis(1500)));
    input.set_yahoo_use_api(false);
    assert!(!input.yahoo_use_api);
    input.set_gmail_use_api(true);
    assert!(input.gmail_use_api);
    input.set_microsoft365_use_api(true);
    assert!(input.microsoft365_use_api);
    input.set_check_gravatar(true);
    assert!(input.check_gravatar);
    input.set_haveibeenpwned_api_key(Some("key".to_string()));
    assert_eq!(input.haveibeenpwned_api_key, Some("key".to_string()));
    input.set_hotmail_use_headless(Some("http://localhost:4444".to_string()));
    assert_eq!(input.hotmail_use_headless, Some("http://localhost:4444".to_string()));
    input.set_skipped_domains(vec![".example.org.".to_string()]);
    assert_eq!(input.skipped_domains, vec![".example.org.".to_string()]);
    // The address is no setter's field.
    assert_eq!(input.to_email, "a@b.c");
}

#[test]
fn a_setter_leaves_the_other_fields() {
    let mut input = CheckEmailInput::new("a@b.c".to_string());
    input.set_smtp_port(2525);
    assert_eq!(input.to_email, "a@b.c");
    assert_eq!(input.from_email, "reacher.email@gmail.com");
    assert_eq!(input.hello_name, "gmail.com");
    assert!(input.proxy.is_none());
    assert_eq!(input.smtp_timeout, Some(Duration::from_secs(12)));
    assert!(input.yahoo_use_api);
    assert!(!input.gmail_use_api);
    assert!(!input.microsoft365_use_api);
    assert!(!input.check_gravatar);
    assert!(input.haveibeenpwned_api_key.is_none());
    assert!(input.hotmail_use_headless.is_none());
    assert_eq!(input.retries, 2);
    assert_eq!(input.smtp_security, SmtpSecurity::Opportunistic);
    assert_eq!(input.skipped_domains.len(), 6);
}

#[test]
fn setters_chain() {
    let mut input = CheckEmailInput::new("a@b.c".to_string());
    input
        .set_from_email("me@example.org".to_string())
        .set_hello_name("example.org".to_string())
        .set_retries(0)
        .set_smtp_port(465)
        .set_smtp_security(SmtpSecurity::Wrapper);
    assert_eq!(input.from_email, "me@example.org");
    assert_eq!(input.hello_name, "example.org");
    assert_eq!(input.retries, 0);
    assert_eq!(input.smtp_port, 465);
    assert_eq!(input.smtp_security, SmtpSecurity::Wrapper);
}

#[test]
fn older_names_set_the_same_fields() {
    let mut input = CheckEmailInput::new("a@b.c".to_string());
    input
        .from_email("me@example.org".to_string())
        .hello_name("example.org".to_string())
        .yahoo_use_api(false)
        .smtp_timeout(Duration::from_secs(3));
    assert_eq!(input.from_email, "me@example.org");
    assert_eq!(input.hello_name, "example.org");
    assert!(!input.yahoo_use_api);
    assert_eq!(input.smtp_timeout, Some(Duration::from_secs(3)));
}

#[test]
fn proxy_by_host_and_port_has_no_credentials() {
    let mut input = CheckEmailInput::new("a@b.c".to_string());
    input.proxy("proxy.example.org".to_string(), 1080);
    let proxy = input.proxy.clone().unwrap();
    assert_eq!(proxy.host, "proxy.example.org");
    assert_eq!(proxy.port, 1080);
    assert!(proxy.username.is_none());
    assert!(proxy.password.is_none());
}

#[test]
fn set_proxy_keeps_the_credentials() {
    let mut input = CheckEmailInput::new("a@b.c".to_string());
    input.set_proxy(CheckEmailInputProxy {
        host: "proxy.example.org".to_string(),
        port: 1080,
        username: Some("user".to_string()),
        password: Some("word".to_string()),
    });
    let proxy = input.proxy.clone().unwrap();
    assert_eq!(proxy.host, "proxy.example.org");
    assert_eq!(proxy.port, 1080);
    assert_eq!(proxy.username, Some("user".to_string()));
    assert_eq!(proxy.password, Some("word".to_string()));
}

#[test]
fn disabled_security_drops_the_tls_parameters() {
    assert!(matches!(SmtpSecurity::Disabled.to_client_security(tls()), ClientSecurity::None));
}

#[test]
fn the_other_modes_keep_the_tls_parameters() {
    match SmtpSecurity::Opportunistic.to_client_security(tls()) {
        ClientSecurity::Opportunistic(params) => assert_eq!(params.domain, "mx.example.org"),
        other => panic!("opportunistic became {:?}", other),
    }
    match SmtpSecurity::Required.to_client_security(tls()) {
        ClientSecurity::Required(params) => assert_eq!(params.domain, "mx.example.org"),
        other => panic!("required became {:?}", other),
    }
    match SmtpSecurity::Wrapper.to_client_security(tls()) {
        ClientSecurity::Wrapper(params) => assert_eq!(params.domain, "mx.example.org"),
        other => panic!("wrapper became {:?}", other),
    }
}
