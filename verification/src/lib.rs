//! Checking whether an email address is likely to accept mail, without
//! sending a message.
//!
//! The crate holds the decisions of one check:
//! - how a check is configured ([`config`]);
//! - in which order its steps follow each other, and when it ends early
//!   ([`check`]);
//! - whether the mail exchangers are asked through the dialogue or through a
//!   provider's own interface ([`provider`]);
//! - which host is connected to, and when again ([`probe`]);
//! - what the failure of the dialogue holds ([`smtp`]) and which known cause
//!   the text of a server's reply points to ([`classify`]);
//! - how the sub-results ([`syntax`], [`mx`], [`misc`], [`smtp`]) fold into
//!   one verdict ([`verdict`]);
//! - how the result is laid out for a serializer ([`output`], [`document`]).
//!
//! Connecting, resolving and looking up are left to the caller, who does the
//! work that a step asks for and hands back what came of it.

pub mod check;
pub mod classify;
pub mod config;
pub mod document;
pub mod misc;
pub mod mx;
pub mod output;
pub mod probe;
pub mod provider;
pub mod smtp;
pub mod syntax;
pub mod text;
pub mod verdict;

pub use check::{
    start_check, AfterAttempt, AfterMisc, AfterMx, AfterSyntax, AwaitingAnswer, AwaitingAttempt,
    AwaitingMisc, AwaitingMx, AwaitingSyntax,
};
pub use classify::SmtpErrorDesc;
pub use config::{CheckEmailInput, CheckEmailInputProxy, SmtpSecurity};
pub use document::Document;
pub use misc::{MiscDetails, MiscError};
pub use mx::{MxDetails, MxError};
pub use output::{CheckEmailOutput, ErrorObject};
pub use probe::{ProbeStep, Prober};
pub use provider::{select_probe, ProbeMethod, Provider};
pub use smtp::{DialogueError, SmtpDetails, SmtpError};
pub use syntax::SyntaxDetails;
pub use verdict::{calculate_reachable, Reachable};
