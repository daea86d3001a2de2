//! Choosing how the mail server of an address is asked.
//!
//! Some providers answer the dialogue in a way that tells nothing, and are
//! better asked through an API of theirs or through their password recovery
//! page. A domain is taken to be served by such a provider when the name of
//! its most preferred mail exchanger ends with the provider's suffix, without
//! regard to the case of ASCII letters. The other way of asking is used only
//! where the configuration switches it on.

use vstd::prelude::*;

use crate::config::CheckEmailInput;
use crate::text::{chars_of, ends_with, has_suffix, lower, to_lower};

verus! {

/// A provider with an API that says whether an address exists.
#[derive(Debug, Clone, Copy, PartialEq, Eq, Structural)]
pub enum Provider {
    /// Yahoo.
    Yahoo,
    /// Gmail.
    Gmail,
    /// Microsoft 365.
    Microsoft365,
}

/// A way of asking whether an address receives mail. Whichever is used, the
/// answer has the same shape: the details of a dialogue, or a failure.
#[derive(Debug, Clone, Copy, PartialEq, Eq, Structural)]
pub enum ProbeMethod {
    /// The dialogue with the mail exchangers of the domain.
    Dialogue,
    /// The API of the provider.
    ProviderApi(Provider),
    /// The password recovery page of Hotmail and Outlook, opened by a
    /// headless navigator.
    Headless,
}

/// How mail exchangers of Yahoo end.
pub open spec fn yahoo_suffix() -> Seq<char> {
    ".yahoodns.net."@
}

/// How mail exchangers of Gmail end.
pub open spec fn gmail_suffix() -> Seq<char> {
    ".google.com."@
}

/// How mail exchangers of Microsoft 365 end.
pub open spec fn microsoft365_suffix() -> Seq<char> {
    ".mail.protection.outlook.com."@
}

/// How mail exchangers of Hotmail and Outlook end.
pub open spec fn hotmail_suffix() -> Seq<char> {
    ".olc.protection.outlook.com."@
}

/// The way in which an address is asked for whose most preferred mail
/// exchanger is `host`.
pub open spec fn spec_select_probe(input: CheckEmailInput, host: Seq<char>) -> ProbeMethod {
    let name = lower(host);
    if input.hotmail_use_headless is Some && ends_with(name, hotmail_suffix()) {
        ProbeMethod::Headless
    } else if input.yahoo_use_api && ends_with(name, yahoo_suffix()) {
        ProbeMethod::ProviderApi(Provider::Yahoo)
    } else if input.gmail_use_api && ends_with(name, gmail_suffix()) {
        ProbeMethod::ProviderApi(Provider::Gmail)
    } else if input.microsoft365_use_api && ends_with(name, microsoft365_suffix()) {
        ProbeMethod::ProviderApi(Provider::Microsoft365)
    } else {
        ProbeMethod::Dialogue
    }
}

/// The way in which an address is asked for whose most preferred mail
/// exchanger is `host`.
pub fn select_probe(input: &CheckEmailInput, host: &str) -> (r: ProbeMethod)
    ensures
        r == spec_select_probe(*input, host@),
{
    let name = to_lower(&chars_of(host));
    if input.hotmail_use_headless.is_some() && has_suffix(
        &name,
        &chars_of(".olc.protection.outlook.com."),
    ) {
        ProbeMethod::Headless
    } else if input.yahoo_use_api && has_suffix(&name, &chars_of(".yahoodns.net.")) {
        ProbeMethod::ProviderApi(Provider::Yahoo)
    } else if input.gmail_use_api && has_suffix(&name, &chars_of(".google.com.")) {
        ProbeMethod::ProviderApi(Provider::Gmail)
    } else if input.microsoft365_use_api && has_suffix(
        &name,
        &chars_of(".mail.protection.outlook.com."),
    ) {
        ProbeMethod::ProviderApi(Provider::Microsoft365)
    } else {
        ProbeMethod::Dialogue
    }
}

/// A way other than the dialogue is taken only where the configuration
/// switches it on.
pub proof fn lemma_other_way_needs_its_switch(input: CheckEmailInput, host: Seq<char>)
    ensures
        spec_select_probe(input, host) == ProbeMethod::Headless ==> input.hotmail_use_headless
            is Some,
        spec_select_probe(input, host) == ProbeMethod::ProviderApi(Provider::Yahoo)
            ==> input.yahoo_use_api,
        spec_select_probe(input, host) == ProbeMethod::ProviderApi(Provider::Gmail)
            ==> input.gmail_use_api,
        spec_select_probe(input, host) == ProbeMethod::ProviderApi(Provider::Microsoft365)
            ==> input.microsoft365_use_api,
{
}

/// With every other way switched off, every address is asked through the
/// dialogue.
pub proof fn lemma_dialogue_unless_switched_on(input: CheckEmailInput, host: Seq<char>)
    requires
        input.hotmail_use_headless is None,
        !input.yahoo_use_api,
        !input.gmail_use_api,
        !input.microsoft365_use_api,
    ensures
        spec_select_probe(input, host) == ProbeMethod::Dialogue,
{
}

} // verus!
