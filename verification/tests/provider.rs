use check_if_email_exists::{select_probe, CheckEmailInput, ProbeMethod, Provider};

fn all_on() -> CheckEmailInput {
    let mut input = CheckEmailInput::new("someone@example.org".to_string());
    input
        .set_yahoo_use_api(true)
        .set_gmail_use_api(true)
        .set_microsoft365_use_api(true)
        .set_hotmail_use_headless(Some("http://localhost:4444".to_string()));
    input
}

fn all_off() -> CheckEmailInput {
    let mut input = CheckEmailInput::new("someone@example.org".to_string());
    input.set_yahoo_use_api(false);
    input
}

#[test]
fn providers_are_known_by_the_end_of_the_host_name() {
    let input = all_on();
    assert_eq!(
        select_probe(&input, "mta5.am0.yahoodns.net."),
        ProbeMethod::ProviderApi(Provider::Yahoo)
    );
    assert_eq!(
        select_probe(&input, "gmail-smtp-in.l.google.com."),
        ProbeMethod::ProviderApi(Provider::Gmail)
    );
    assert_eq!(
        select_probe(&input, "example-org.mail.protection.outlook.com."),
        ProbeMethod::ProviderApi(Provider::Microsoft365)
    );
    assert_eq!(select_probe(&input, "hotmail-com.olc.protection.outlook.com."), ProbeMethod::Headless);
    assert_eq!(select_probe(&input, "mx.example.org."), ProbeMethod::Dialogue);
}

#[test]
fn the_case_of_the_host_name_does_not_matter() {
    let input = all_on();
    assert_eq!(
        select_probe(&input, "MTA5.AM0.YahooDNS.Net."),
        ProbeMethod::ProviderApi(Provider::Yahoo)
    );
}

#[test]
fn the_suffix_has_to_stand_at_the_end() {
    let input = all_on();
    assert_eq!(select_probe(&input, "mta5.am0.yahoodns.net.example.org."), ProbeMethod::Dialogue);
    assert_eq!(select_probe(&input, "mta5.am0.yahoodns.net"), ProbeMethod::Dialogue);
    assert_eq!(select_probe(&input, ""), ProbeMethod::Dialogue);
}

#[test]
fn a_way_that_is_switched_off_is_not_taken() {
    let input = all_off();
    assert_eq!(select_probe(&input, "mta5.am0.yahoodns.net."), ProbeMethod::Dialogue);
    assert_eq!(select_probe(&input, "gmail-smtp-in.l.google.com."), ProbeMethod::Dialogue);
    assert_eq!(
        select_probe(&input, "example-org.mail.protection.outlook.com."),
        ProbeMethod::Dialogue
    );
    assert_eq!(select_probe(&input, "hotmail-com.olc.protection.outlook.com."), ProbeMethod::Dialogue);
}

#[test]
fn by_default_only_yahoo_is_asked_through_its_api() {
    let input = CheckEmailInput::new("someone@example.org".to_string());
    assert_eq!(
        select_probe(&input, "mta5.am0.yahoodns.net."),
        ProbeMethod::ProviderApi(Provider::Yahoo)
    );
    assert_eq!(select_probe(&input, "gmail-smtp-in.l.google.com."), ProbeMethod::Dialogue);
    assert_eq!(
        select_probe(&input, "example-org.mail.protection.outlook.com."),
        ProbeMethod::Dialogue
    );
    assert_eq!(select_probe(&input, "hotmail-com.olc.protection.outlook.com."), ProbeMethod::Dialogue);
}
