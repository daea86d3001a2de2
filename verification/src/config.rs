//! The description of how one check is carried out, with its defaults.

use std::time::Duration;

use async_smtp::{ClientSecurity, ClientTlsParameters};
use vstd::prelude::*;
use vstd::string::StringExecFns;

verus! {

/// `async_smtp::ClientSecurity`, by its variants: how TLS is applied to a
/// client connection.
#[verifier::external_type_specification]
pub struct ExClientSecurity(ClientSecurity);

/// `async_smtp::ClientTlsParameters`: the TLS connector and the domain sent
/// in the handshake. The library carries such a value and never looks inside.
#[verifier::external_type_specification]
#[verifier::external_body]
pub struct ExClientTlsParameters(ClientTlsParameters);

/// The duration that `Duration::from_secs` returns for a number of seconds.
pub uninterp spec fn duration_of_secs(secs: u64) -> Duration;

/// `Duration::from_secs`: the result is a function of the number of seconds
/// alone.
pub assume_specification[ Duration::from_secs ](secs: u64) -> (d: Duration)
    ensures
        d == duration_of_secs(secs),
;

/// A SOCKS5 proxy through which the verification is performed.
#[derive(Debug, Clone)]
pub struct CheckEmailInputProxy {
    /// Host of the SOCKS5 proxy.
    pub host: String,
    /// Port of the SOCKS5 proxy.
    pub port: u16,
    /// Username for the proxy's authentication.
    pub username: Option<String>,
    /// Password for the proxy's authentication.
    pub password: Option<String>,
}

impl Default for CheckEmailInputProxy {
    fn default() -> (r: Self)
        ensures
            r.host@ == Seq::<char>::empty(),
            r.port == 0,
            r.username is None,
            r.password is None,
    {
        CheckEmailInputProxy { host: String::new(), port: 0, username: None, password: None }
    }
}

/// How TLS is applied to the SMTP connection.
#[derive(Debug, Clone, Copy, PartialEq, Eq, Structural)]
pub enum SmtpSecurity {
    /// Plaintext only; TLS is ignored entirely.
    Disabled,
    /// Start in plaintext and use `STARTTLS` when the server offers it.
    Opportunistic,
    /// Start in plaintext and give up when `STARTTLS` is not available.
    Required,
    /// Wrap the connection in TLS before any protocol byte is exchanged.
    Wrapper,
}

impl Default for SmtpSecurity {
    fn default() -> (r: Self)
        ensures
            r == SmtpSecurity::Opportunistic,
    {
        SmtpSecurity::Opportunistic
    }
}

impl SmtpSecurity {
    /// The security setting of the SMTP client for this mode: the TLS
    /// parameters go into every variant but `Disabled`, which drops them.
    pub fn to_client_security(self, tls_params: ClientTlsParameters) -> (r: ClientSecurity)
        ensures
            r == match self {
                SmtpSecurity::Disabled => ClientSecurity::None,
                SmtpSecurity::Opportunistic => ClientSecurity::Opportunistic(tls_params),
                SmtpSecurity::Required => ClientSecurity::Required(tls_params),
                SmtpSecurity::Wrapper => ClientSecurity::Wrapper(tls_params),
            },
    {
        match self {
            SmtpSecurity::Disabled => ClientSecurity::None,
            SmtpSecurity::Opportunistic => ClientSecurity::Opportunistic(tls_params),
            SmtpSecurity::Required => ClientSecurity::Required(tls_params),
            SmtpSecurity::Wrapper => ClientSecurity::Wrapper(tls_params),
        }
    }
}

/// The mail-exchanger name fragments that are skipped unless the caller says
/// otherwise: providers whose servers answer in a way that tells nothing.
pub open spec fn default_skipped_domains() -> Seq<Seq<char>> {
    seq![
        ".bluewin.ch."@,
        "bluewin-ch."@,
        ".gmx.net."@,
        ".mail.icloud.com."@,
        ".web.de."@,
        ".zoho.com."@,
    ]
}

/// How one address is checked. Every field has a value from the start; the
/// setters change one field each and check nothing.
#[derive(Debug, Clone)]
pub struct CheckEmailInput {
    /// The address to check.
    pub to_email: String,
    /// Address given in the `MAIL FROM:` command.
    pub from_email: String,
    /// Name given in the `EHLO` command.
    pub hello_name: String,
    /// SOCKS5 proxy to connect through, if any.
    pub proxy: Option<CheckEmailInputProxy>,
    /// Port of the mail server. Commonly 25, 465, 587 or 2525.
    pub smtp_port: u16,
    /// Time allowed for each connection attempt; `None` for no limit.
    pub smtp_timeout: Option<Duration>,
    /// For Yahoo addresses, ask Yahoo's API in place of its mail servers.
    pub yahoo_use_api: bool,
    /// For Gmail addresses, ask Gmail's API in place of its mail servers.
    pub gmail_use_api: bool,
    /// For Microsoft 365 addresses, ask OneDrive's API in place of the mail
    /// servers.
    pub microsoft365_use_api: bool,
    /// Whether to look for a gravatar image of the address.
    pub check_gravatar: bool,
    /// Key for the HaveIBeenPwned API; the lookup is made only with a key.
    pub haveibeenpwned_api_key: Option<String>,
    /// For Hotmail and Outlook addresses, the endpoint of a WebDriver process
    /// that opens the password recovery page in place of the mail servers.
    pub hotmail_use_headless: Option<String>,
    /// How many more times a failed connection is attempted.
    pub retries: usize,
    /// How TLS is applied to the connection.
    pub smtp_security: SmtpSecurity,
    /// Fragments of mail-exchanger names: a host whose name contains one of
    /// them is not connected to, nor is any other host of the domain, and the
    /// check reports that it was skipped.
    /// The test is a plain substring test, so `"zoho"` also matches
    /// `mx.mycustomzoho.com.`; `".zoho.com."` does not.
    pub skipped_domains: Vec<String>,
}

impl CheckEmailInput {
    /// Every field but `to_email` holds its default.
    pub open spec fn has_defaults(&self) -> bool {
        &&& self.from_email@ == "reacher.email@gmail.com"@
        &&& self.hello_name@ == "gmail.com"@
        &&& self.proxy is None
        &&& self.smtp_port == 25
        &&& self.smtp_timeout == Some(duration_of_secs(12))
        &&& self.yahoo_use_api
        &&& !self.gmail_use_api
        &&& !self.microsoft365_use_api
        &&& !self.check_gravatar
        &&& self.haveibeenpwned_api_key is None
        &&& self.hotmail_use_headless is None
        &&& self.retries == 2
        &&& self.smtp_security == SmtpSecurity::Opportunistic
        &&& self.skipped_domains.deep_view() == default_skipped_domains()
    }
}

impl Default for CheckEmailInput {
    fn default() -> (r: Self)
        ensures
            r.to_email@ == Seq::<char>::empty(),
            r.has_defaults(),
    {
        CheckEmailInput::new(String::new())
    }
}

impl CheckEmailInput {
    /// A configuration for `to_email` with every other field at its default.
    pub fn new(to_email: String) -> (r: CheckEmailInput)
        ensures
            r.to_email == to_email,
            r.has_defaults(),
    {
        let mut skipped_domains: Vec<String> = Vec::new();
        skipped_domains.push(String::from_str(".bluewin.ch."));
        skipped_domains.push(String::from_str("bluewin-ch."));
        skipped_domains.push(String::from_str(".gmx.net."));
        skipped_domains.push(String::from_str(".mail.icloud.com."));
        skipped_domains.push(String::from_str(".web.de."));
        skipped_domains.push(String::from_str(".zoho.com."));
        assert(skipped_domains.deep_view() =~= default_skipped_domains());
        CheckEmailInput {
            to_email,
            from_email: String::from_str("reacher.email@gmail.com"),
            hello_name: String::from_str("gmail.com"),
            proxy: None,
            smtp_port: 25,
            smtp_timeout: Some(Duration::from_secs(12)),
            yahoo_use_api: true,
            gmail_use_api: false,
            microsoft365_use_api: false,
            check_gravatar: false,
            haveibeenpwned_api_key: None,
            hotmail_use_headless: None,
            retries: 2,
            smtp_security: SmtpSecurity::Opportunistic,
            skipped_domains,
        }
    }

    /// Sets the address given in the `MAIL FROM:` command.
    pub fn set_from_email(&mut self, email: String) -> (r: &mut CheckEmailInput)
        ensures
            *r == (CheckEmailInput { from_email: email, ..*old(self) }),
            *final(self) == *final(r),
    {
        self.from_email = email;
        self
    }

    /// The same as [`CheckEmailInput::set_from_email`].
    pub fn from_email(&mut self, email: String) -> (r: &mut CheckEmailInput)
        ensures
            *r == (CheckEmailInput { from_email: email, ..*old(self) }),
            *final(self) == *final(r),
    {
        self.set_from_email(email)
    }

    /// Sets the name given in the `EHLO` command.
    pub fn set_hello_name(&mut self, name: String) -> (r: &mut CheckEmailInput)
        ensures
            *r == (CheckEmailInput { hello_name: name, ..*old(self) }),
            *final(self) == *final(r),
    {
        self.hello_name = name;
        self
    }

    /// The same as [`CheckEmailInput::set_hello_name`].
    pub fn hello_name(&mut self, name: String) -> (r: &mut CheckEmailInput)
        ensures
            *r == (CheckEmailInput { hello_name: name, ..*old(self) }),
            *final(self) == *final(r),
    {
        self.set_hello_name(name)
    }

    /// Connects through the given SOCKS5 proxy.
    pub fn set_proxy(&mut self, proxy: CheckEmailInputProxy) -> (r: &mut CheckEmailInput)
        ensures
            *r == (CheckEmailInput { proxy: Some(proxy), ..*old(self) }),
            *final(self) == *final(r),
    {
        self.proxy = Some(proxy);
        self
    }

    /// Connects through the SOCKS5 proxy at the given host and port, without
    /// authentication.
    pub fn proxy(&mut self, proxy_host: String, proxy_port: u16) -> (r: &mut CheckEmailInput)
        ensures
            *r == (CheckEmailInput {
                proxy: Some(
                    CheckEmailInputProxy {
                        host: proxy_host,
                        port: proxy_port,
                        username: None,
                        password: None,
                    },
                ),
                ..*old(self)
            }),
            *final(self) == *final(r),
    {
        self.proxy = Some(
            CheckEmailInputProxy {
                host: proxy_host,
                port: proxy_port,
                username: None,
                password: None,
            },
        );
        self
    }

    /// Sets how many more times a failed connection is attempted.
    pub fn set_retries(&mut self, retries: usize) -> (r: &mut CheckEmailInput)
        ensures
            *r == (CheckEmailInput { retries: retries, ..*old(self) }),
            *final(self) == *final(r),
    {
        self.retries = retries;
        self
    }

    /// Sets the time allowed for each connection attempt, not for the whole
    /// check; `None` removes the limit.
    pub fn set_smtp_timeout(&mut self, duration: Option<Duration>) -> (r: &mut CheckEmailInput)
        ensures
            *r == (CheckEmailInput { smtp_timeout: duration, ..*old(self) }),
            *final(self) == *final(r),
    {
        self.smtp_timeout = duration;
        self
    }

    /// Sets the time allowed for each connection attempt. To remove the
    /// limit, use [`CheckEmailInput::set_smtp_timeout`].
    pub fn smtp_timeout(&mut self, duration: Duration) -> (r: &mut CheckEmailInput)
        ensures
            *r == (CheckEmailInput { smtp_timeout: Some(duration), ..*old(self) }),
            *final(self) == *final(r),
    {
        self.set_smtp_timeout(Some(duration))
    }

    /// Sets the port of the mail server.
    pub fn set_smtp_port(&mut self, port: u16) -> (r: &mut CheckEmailInput)
        ensures
            *r == (CheckEmailInput { smtp_port: port, ..*old(self) }),
            *final(self) == *final(r),
    {
        self.smtp_port = port;
        self
    }

    /// Sets how TLS is applied to the connection.
    pub fn set_smtp_security(&mut self, smtp_security: SmtpSecurity) -> (r: &mut CheckEmailInput)
        ensures
            *r == (CheckEmailInput { smtp_security: smtp_security, ..*old(self) }),
            *final(self) == *final(r),
    {
        self.smtp_security = smtp_security;
        self
    }

    /// Sets whether Yahoo addresses are checked through Yahoo's API.
    pub fn set_yahoo_use_api(&mut self, use_api: bool) -> (r: &mut CheckEmailInput)
        ensures
            *r == (CheckEmailInput { yahoo_use_api: use_api, ..*old(self) }),
            *final(self) == *final(r),
    {
        self.yahoo_use_api = use_api;
        self
    }

    /// The same as [`CheckEmailInput::set_yahoo_use_api`].
    pub fn yahoo_use_api(&mut self, use_api: bool) -> (r: &mut CheckEmailInput)
        ensures
            *r == (CheckEmailInput { yahoo_use_api: use_api, ..*old(self) }),
            *final(self) == *final(r),
    {
        self.set_yahoo_use_api(use_api)
    }

    /// Sets whether Gmail addresses are checked through Gmail's API.
    pub fn set_gmail_use_api(&mut self, use_api: bool) -> (r: &mut CheckEmailInput)
        ensures
            *r == (CheckEmailInput { gmail_use_api: use_api, ..*old(self) }),
            *final(self) == *final(r),
    {
        self.gmail_use_api = use_api;
        self
    }

    /// Sets whether Microsoft 365 addresses are checked through OneDrive's
    /// API.
    pub fn set_microsoft365_use_api(&mut self, use_api: bool) -> (r: &mut CheckEmailInput)
        ensures
            *r == (CheckEmailInput { microsoft365_use_api: use_api, ..*old(self) }),
            *final(self) == *final(r),
    {
        self.microsoft365_use_api = use_api;
        self
    }

    /// Sets whether a gravatar image of the address is looked for.
    pub fn set_check_gravatar(&mut self, check_gravatar: bool) -> (r: &mut CheckEmailInput)
        ensures
            *r == (CheckEmailInput { check_gravatar: check_gravatar, ..*old(self) }),
            *final(self) == *final(r),
    {
        self.check_gravatar = check_gravatar;
        self
    }

    /// Sets the key for the HaveIBeenPwned API; with `None` the lookup is
    /// not made.
    pub fn set_haveibeenpwned_api_key(&mut self, api_key: Option<String>) -> (r:
        &mut CheckEmailInput)
        ensures
            *r == (CheckEmailInput { haveibeenpwned_api_key: api_key, ..*old(self) }),
            *final(self) == *final(r),
    {
        self.haveibeenpwned_api_key = api_key;
        self
    }

    /// Sets the WebDriver endpoint used for Hotmail and Outlook addresses;
    /// with `None` their mail servers are asked as any other.
    pub fn set_hotmail_use_headless(&mut self, use_headless: Option<String>) -> (r:
        &mut CheckEmailInput)
        ensures
            *r == (CheckEmailInput { hotmail_use_headless: use_headless, ..*old(self) }),
            *final(self) == *final(r),
    {
        self.hotmail_use_headless = use_headless;
        self
    }

    /// Replaces the fragments of mail-exchanger names that are skipped.
    pub fn set_skipped_domains(&mut self, domains: Vec<String>) -> (r: &mut CheckEmailInput)
        ensures
            *r == (CheckEmailInput { skipped_domains: domains, ..*old(self) }),
            *final(self) == *final(r),
    {
        self.skipped_domains = domains;
        self
    }
}

} // verus!
