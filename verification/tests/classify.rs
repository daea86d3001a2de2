use check_if_email_exists::classify::classify;
use check_if_email_exists::SmtpErrorDesc;

fn lines(texts: &[&str]) -> Vec<String> {
    texts.iter().map(|text| text.to_string()).collect()
}

#[test]
fn blacklist_is_a_blocked_ip() {
    assert_eq!(
        classify(&lines(&["blacklist", "8BITMIME", "SIZE 42"])),
        Some(SmtpErrorDesc::IpBlacklisted)
    );
}

#[test]
fn missing_reverse_hostname_needs_rdns() {
    assert_eq!(
        classify(&lines(&["Client host rejected: cannot find your reverse hostname"])),
        Some(SmtpErrorDesc::NeedsRDNS)
    );
}

#[test]
fn unknown_text_has_no_cause() {
    assert_eq!(classify(&lines(&["foobar", "8BITMIME", "SIZE 42"])), None);
}

#[test]
fn no_line_has_no_cause() {
    assert_eq!(classify(&lines(&[])), None);
    assert_eq!(classify(&lines(&[""])), None);
}

#[test]
fn every_pattern_has_its_cause() {
    let blocked = [
        "554 Connection rejected because your IP is blacklisted",
        "Rejected because 23.129.64.213 is in a black list at b.barracudacentral.org",
        "5.7.1 Service unavailable, client host is on our blocklist",
        "Your IP is on a block list",
        "5.7.1 Connections not accepted from IP addresses on Spamhaus XBL",
    ];
    for text in blocked {
        assert_eq!(classify(&lines(&[text])), Some(SmtpErrorDesc::IpBlacklisted), "{}", text);
    }
    let rdns = [
        "4.7.1 Client host rejected: cannot find your reverse hostname, [147.75.45.223]",
        "4.7.25 Client host rejected: cannot find your hostname, [147.75.45.223]",
        "You dont seem to have a reverse dns entry. Come back later.",
        "5.7.25 The IP address sending this message does not have a PTR record setup",
    ];
    for text in rdns {
        assert_eq!(classify(&lines(&[text])), Some(SmtpErrorDesc::NeedsRDNS), "{}", text);
    }
}

#[test]
fn the_case_of_letters_does_not_matter() {
    assert_eq!(classify(&lines(&["BLACKLIST"])), Some(SmtpErrorDesc::IpBlacklisted));
    assert_eq!(classify(&lines(&["Listed by SpamHaus"])), Some(SmtpErrorDesc::IpBlacklisted));
    assert_eq!(classify(&lines(&["No Reverse DNS for you"])), Some(SmtpErrorDesc::NeedsRDNS));
}

#[test]
fn only_ascii_letters_are_folded() {
    // U+212A, the Kelvin sign, is no ASCII letter.
    assert_eq!(classify(&lines(&["blac\u{212A}list"])), None);
}

#[test]
fn the_first_pattern_wins() {
    // A pattern of each cause occurs; the patterns of a blocked IP come
    // first in the list, wherever they stand in the text.
    assert_eq!(
        classify(&lines(&["no reverse dns entry, and your IP is on a blacklist"])),
        Some(SmtpErrorDesc::IpBlacklisted)
    );
    assert_eq!(
        classify(&lines(&["your IP is on a blacklist", "no reverse dns entry"])),
        Some(SmtpErrorDesc::IpBlacklisted)
    );
}

#[test]
fn every_line_is_searched() {
    assert_eq!(
        classify(&lines(&["550 rejected", "see spamhaus.org", "bye"])),
        Some(SmtpErrorDesc::IpBlacklisted)
    );
}

#[test]
fn lines_are_joined_by_a_semicolon_and_a_space() {
    // "black" and "list" on two lines give "black; list", not "black list".
    assert_eq!(classify(&lines(&["black", "list"])), None);
    assert_eq!(classify(&lines(&["ptr", "record"])), None);
}

#[test]
fn classifying_again_gives_the_same() {
    let reply = lines(&["Client host rejected: cannot find your hostname"]);
    let first = classify(&reply);
    assert_eq!(first, classify(&reply));
    assert_eq!(first, Some(SmtpErrorDesc::NeedsRDNS));
    let reply = lines(&["mailbox unavailable"]);
    assert_eq!(classify(&reply), None);
    assert_eq!(classify(&reply), None);
}

#[test]
fn causes_have_their_names() {
    assert_eq!(SmtpErrorDesc::IpBlacklisted.name(), "IpBlacklisted");
    assert_eq!(SmtpErrorDesc::NeedsRDNS.name(), "NeedsRDNS");
}
