//! Folding the sub-results of a check into one verdict.
//!
//! The first rule that applies decides:
//! 1. an address that is not well formed is `Invalid`;
//! 2. a domain whose lookup failed, or that has no mail exchanger, is
//!    `Invalid`;
//! 3. where the dialogue went through, the server accepted the recipient,
//!    and neither is the server a catch-all, nor the mailbox full, nor the
//!    address disposable or that of a role, the address is `Safe`;
//! 4. where the dialogue went through and one of these four holds, the
//!    address is `Risky`;
//! 5. where the dialogue failed, for whatever reason, the verdict is
//!    `Unknown`;
//! 6. what is left is a dialogue that went through without the server
//!    accepting the recipient: the address is `Invalid`.

use vstd::prelude::*;
use vstd::string::StringExecFns;

use crate::misc::{MiscDetails, MiscError};
use crate::mx::{MxDetails, MxError};
use crate::smtp::{SmtpDetails, SmtpError};
use crate::syntax::SyntaxDetails;

verus! {

/// How confident the check is that the address receives mail.
#[derive(Debug, Clone, Copy, PartialEq, Eq, Structural)]
pub enum Reachable {
    /// The address is safe to send to.
    Safe,
    /// The address seems to exist, but mail to it may bounce or stay
    /// unread: its server accepts everything, its mailbox is full, or it is
    /// a disposable address or a role account.
    Risky,
    /// The address does not exist or is not well formed.
    Invalid,
    /// The mail server gave no usable answer.
    Unknown,
}

impl Reachable {
    /// The name of the verdict in a serialized result.
    pub open spec fn spec_name(self) -> Seq<char> {
        match self {
            Reachable::Safe => "safe"@,
            Reachable::Risky => "risky"@,
            Reachable::Invalid => "invalid"@,
            Reachable::Unknown => "unknown"@,
        }
    }

    /// The name of the verdict in a serialized result.
    pub fn name(&self) -> (r: String)
        ensures
            r@ == self.spec_name(),
    {
        match self {
            Reachable::Safe => String::from_str("safe"),
            Reachable::Risky => String::from_str("risky"),
            Reachable::Invalid => String::from_str("invalid"),
            Reachable::Unknown => String::from_str("unknown"),
        }
    }
}

/// The lookup went through and found a host that receives mail.
pub open spec fn has_mail_exchanger(mx: Result<MxDetails, MxError>) -> bool {
    mx matches Ok(details) && details.spec_accepts_mail()
}

/// Something makes mail to the address likely to bounce or stay unread. Where
/// the facts about the address could not be had, they count as absent.
pub open spec fn has_quality_issue(misc: Result<MiscDetails, MiscError>, smtp: SmtpDetails) -> bool {
    ||| smtp.is_catch_all
    ||| smtp.has_full_inbox
    ||| (misc matches Ok(details) && (details.is_disposable || details.is_role_account))
}

/// The server was reached and accepted this very recipient, whose mailbox
/// is in use.
pub open spec fn is_accepted(smtp: SmtpDetails) -> bool {
    smtp.can_connect_smtp && smtp.is_deliverable && !smtp.is_disabled
}

/// The verdict for the four sub-results.
pub open spec fn spec_calculate_reachable(
    syntax: SyntaxDetails,
    mx: Result<MxDetails, MxError>,
    misc: Result<MiscDetails, MiscError>,
    smtp: Result<SmtpDetails, SmtpError>,
) -> Reachable {
    if !syntax.is_valid_syntax {
        Reachable::Invalid
    } else if !has_mail_exchanger(mx) {
        Reachable::Invalid
    } else if smtp matches Ok(details) && is_accepted(details) && !has_quality_issue(
        misc,
        details,
    ) {
        Reachable::Safe
    } else if smtp matches Ok(details) && has_quality_issue(misc, details) {
        Reachable::Risky
    } else if smtp is Err {
        Reachable::Unknown
    } else {
        Reachable::Invalid
    }
}

/// The verdict for the four sub-results.
pub fn calculate_reachable(
    syntax: &SyntaxDetails,
    mx: &Result<MxDetails, MxError>,
    misc: &Result<MiscDetails, MiscError>,
    smtp: &Result<SmtpDetails, SmtpError>,
) -> (r: Reachable)
    ensures
        r == spec_calculate_reachable(*syntax, *mx, *misc, *smtp),
{
    if !syntax.is_valid_syntax {
        return Reachable::Invalid;
    }
    let resolved = match mx {
        Ok(details) => details.accepts_mail(),
        Err(_) => false,
    };
    if !resolved {
        return Reachable::Invalid;
    }
    match smtp {
        Err(_) => Reachable::Unknown,
        Ok(details) => {
            let flagged = match misc {
                Ok(facts) => facts.is_disposable || facts.is_role_account,
                Err(_) => false,
            };
            if details.is_catch_all || details.has_full_inbox || flagged {
                Reachable::Risky
            } else if details.can_connect_smtp && details.is_deliverable && !details.is_disabled {
                Reachable::Safe
            } else {
                Reachable::Invalid
            }
        },
    }
}

/// An address that is not well formed is `Invalid`, whatever the other
/// sub-results hold.
pub proof fn lemma_invalid_syntax_is_invalid(
    syntax: SyntaxDetails,
    mx: Result<MxDetails, MxError>,
    misc: Result<MiscDetails, MiscError>,
    smtp: Result<SmtpDetails, SmtpError>,
)
    requires
        !syntax.is_valid_syntax,
    ensures
        spec_calculate_reachable(syntax, mx, misc, smtp) == Reachable::Invalid,
{
}

/// The verdict is `Unknown` exactly when the address is well formed, its
/// domain has a mail exchanger and the dialogue failed.
pub proof fn lemma_unknown_is_failed_dialogue(
    syntax: SyntaxDetails,
    mx: Result<MxDetails, MxError>,
    misc: Result<MiscDetails, MiscError>,
    smtp: Result<SmtpDetails, SmtpError>,
)
    ensures
        spec_calculate_reachable(syntax, mx, misc, smtp) == Reachable::Unknown <==> (
        syntax.is_valid_syntax && has_mail_exchanger(mx) && smtp is Err),
{
}

/// The verdict is `Safe` exactly when the address is well formed, its domain
/// has a mail exchanger, the server accepted the recipient and nothing makes
/// the address risky; it is `Risky` exactly when the address is well formed,
/// its domain has a mail exchanger, the dialogue went through and something
/// makes the address risky.
pub proof fn lemma_safe_and_risky(
    syntax: SyntaxDetails,
    mx: Result<MxDetails, MxError>,
    misc: Result<MiscDetails, MiscError>,
    smtp: Result<SmtpDetails, SmtpError>,
)
    ensures
        spec_calculate_reachable(syntax, mx, misc, smtp) == Reachable::Safe <==> (
        syntax.is_valid_syntax && has_mail_exchanger(mx) && (smtp matches Ok(details)
            && is_accepted(details) && !has_quality_issue(misc, details))),
        spec_calculate_reachable(syntax, mx, misc, smtp) == Reachable::Risky <==> (
        syntax.is_valid_syntax && has_mail_exchanger(mx) && (smtp matches Ok(details)
            && has_quality_issue(misc, details))),
{
}

} // verus!
