//! The steps of one check, in their order.
//!
//! A check parses the address, looks up the mail exchangers of its domain,
//! gathers the facts that do not come from the mail server, and asks the
//! mail server. It ends early, with the verdict `Invalid`, where the address
//! is not well formed or its domain has no mail exchanger; nothing is
//! connected to then.
//!
//! The check does none of this work itself. Each state of it stands for one
//! piece of work that its caller has to do; the caller hands the result to
//! the state's one method and gets the next state, or the finished
//! [`CheckEmailOutput`]. A state is used up by that method, so that no step
//! can be taken twice or out of its turn.

use vstd::prelude::*;

use crate::config::CheckEmailInput;
use crate::misc::{MiscDetails, MiscError};
use crate::mx::{MxDetails, MxError};
use crate::output::{blank_misc, blank_mx, blank_smtp, spec_assemble, CheckEmailOutput};
use crate::probe::{Outcome, ProbeModel, ProbeStep, Prober, StepModel};
use crate::provider::{select_probe, spec_select_probe, ProbeMethod};
use crate::smtp::{SmtpDetails, SmtpError};
use crate::syntax::SyntaxDetails;
use crate::text::copy_texts;
use crate::verdict::{has_mail_exchanger, is_accepted, Reachable};

verus! {

/// A check that waits for its address to be parsed.
pub struct AwaitingSyntax<'a> {
    input: &'a CheckEmailInput,
}

/// A check that waits for the mail exchangers of the domain.
pub struct AwaitingMx<'a> {
    input: &'a CheckEmailInput,
    syntax: SyntaxDetails,
}

/// A check that waits for the facts that do not come from the mail server.
pub struct AwaitingMisc<'a> {
    input: &'a CheckEmailInput,
    syntax: SyntaxDetails,
    mx: MxDetails,
}

/// A check that waits for the answer of a provider's API or of the headless
/// navigator.
pub struct AwaitingAnswer<'a> {
    input: &'a CheckEmailInput,
    syntax: SyntaxDetails,
    mx: MxDetails,
    misc: Result<MiscDetails, MiscError>,
    method: ProbeMethod,
}

/// A check that waits for the outcome of a connection to a mail exchanger.
pub struct AwaitingAttempt<'a> {
    input: &'a CheckEmailInput,
    syntax: SyntaxDetails,
    mx: MxDetails,
    misc: Result<MiscDetails, MiscError>,
    prober: Prober<'a>,
}

/// What follows the parsing of the address.
pub enum AfterSyntax<'a> {
    /// Look up the mail exchangers of the domain.
    ResolveMx(AwaitingMx<'a>),
    /// The check has ended.
    Finished(CheckEmailOutput),
}

/// What follows the lookup of the mail exchangers.
pub enum AfterMx<'a> {
    /// Gather the facts that do not come from the mail server.
    CheckMisc(AwaitingMisc<'a>),
    /// The check has ended.
    Finished(CheckEmailOutput),
}

/// What follows the gathering of the facts.
pub enum AfterMisc<'a> {
    /// Ask the provider's API or the headless navigator.
    Ask(AwaitingAnswer<'a>),
    /// Connect to a mail exchanger.
    Connect(AwaitingAttempt<'a>),
    /// The check has ended.
    Finished(CheckEmailOutput),
}

/// What follows an attempt to connect.
pub enum AfterAttempt<'a> {
    /// Connect to a mail exchanger, the same or the next.
    Connect(AwaitingAttempt<'a>),
    /// The check has ended.
    Finished(CheckEmailOutput),
}

/// Begins the check of `input.to_email`.
pub fn start_check<'a>(input: &'a CheckEmailInput) -> (r: AwaitingSyntax<'a>)
    ensures
        r.input() == input,
{
    AwaitingSyntax { input }
}

impl<'a> AwaitingSyntax<'a> {
    /// The configuration of the check.
    pub closed spec fn input(&self) -> &'a CheckEmailInput {
        self.input
    }

    /// The address to parse.
    pub fn address(&self) -> (r: &str)
        ensures
            r@ == self.input().to_email@,
    {
        self.input.to_email.as_str()
    }

    /// Takes the parts of the address. Where the address is not well formed
    /// the check ends: the verdict is `Invalid`, and neither a lookup nor a
    /// connection is made. Otherwise the mail exchangers are looked up next.
    pub fn syntax_parsed(self, syntax: SyntaxDetails) -> (r: AfterSyntax<'a>)
        ensures
            match r {
                AfterSyntax::Finished(output) => {
                    &&& !syntax.is_valid_syntax
                    &&& output.input == self.input().to_email
                    &&& output.is_reachable == Reachable::Invalid
                    &&& output.syntax == syntax
                    &&& blank_mx(output.mx)
                    &&& blank_misc(output.misc)
                    &&& blank_smtp(output.smtp)
                },
                AfterSyntax::ResolveMx(next) => {
                    &&& syntax.is_valid_syntax
                    &&& next.input() == self.input()
                    &&& next.syntax() == syntax
                },
            },
    {
        if syntax.is_valid_syntax {
            AfterSyntax::ResolveMx(AwaitingMx { input: self.input, syntax })
        } else {
            AfterSyntax::Finished(
                CheckEmailOutput::assemble(
                    self.input.to_email.clone(),
                    syntax,
                    Ok(MxDetails::default()),
                    Ok(MiscDetails::default()),
                    Ok(SmtpDetails::default()),
                ),
            )
        }
    }
}

impl<'a> AwaitingMx<'a> {
    /// The configuration of the check.
    pub closed spec fn input(&self) -> &'a CheckEmailInput {
        self.input
    }

    /// The parts of the address.
    pub closed spec fn syntax(&self) -> SyntaxDetails {
        self.syntax
    }

    /// The domain whose mail exchangers are to be looked up.
    pub fn domain(&self) -> (r: &str)
        ensures
            r@ == self.syntax().domain@,
    {
        self.syntax.domain.as_str()
    }

    /// Takes the mail exchangers of the domain. Where the lookup failed or
    /// found no host the check ends: the verdict is `Invalid`, and no
    /// connection is made. Otherwise the facts are gathered next.
    pub fn mx_resolved(self, mx: Result<MxDetails, MxError>) -> (r: AfterMx<'a>)
        ensures
            match r {
                AfterMx::Finished(output) => {
                    &&& !has_mail_exchanger(mx)
                    &&& output.input == self.input().to_email
                    &&& output.is_reachable == Reachable::Invalid
                    &&& output.syntax == self.syntax()
                    &&& output.mx == mx
                    &&& blank_misc(output.misc)
                    &&& blank_smtp(output.smtp)
                },
                AfterMx::CheckMisc(next) => {
                    &&& has_mail_exchanger(mx)
                    &&& next.input() == self.input()
                    &&& next.syntax() == self.syntax()
                    &&& mx == Ok::<MxDetails, MxError>(next.mx())
                },
            },
    {
        match mx {
            Ok(details) => {
                if details.accepts_mail() {
                    AfterMx::CheckMisc(
                        AwaitingMisc { input: self.input, syntax: self.syntax, mx: details },
                    )
                } else {
                    AfterMx::Finished(
                        CheckEmailOutput::assemble(
                            self.input.to_email.clone(),
                            self.syntax,
                            Ok(details),
                            Ok(MiscDetails::default()),
                            Ok(SmtpDetails::default()),
                        ),
                    )
                }
            },
            Err(error) => AfterMx::Finished(
                CheckEmailOutput::assemble(
                    self.input.to_email.clone(),
                    self.syntax,
                    Err(error),
                    Ok(MiscDetails::default()),
                    Ok(SmtpDetails::default()),
                ),
            ),
        }
    }
}

impl<'a> AwaitingMisc<'a> {
    #[verifier::type_invariant]
    spec fn inv(self) -> bool {
        self.mx.records@.len() > 0
    }

    /// The configuration of the check.
    pub closed spec fn input(&self) -> &'a CheckEmailInput {
        self.input
    }

    /// The parts of the address.
    pub closed spec fn syntax(&self) -> SyntaxDetails {
        self.syntax
    }

    /// The mail exchangers of the domain.
    pub closed spec fn mx(&self) -> MxDetails {
        self.mx
    }

    /// The way in which the mail server is asked, which the name of the most
    /// preferred mail exchanger decides.
    pub open spec fn method(&self) -> ProbeMethod {
        spec_select_probe(*self.input(), self.mx().records@[0]@)
    }

    /// How the probe of the mail exchangers begins.
    pub open spec fn first_step(&self) -> StepModel {
        ProbeModel::start(
            self.mx().records@,
            self.input().skipped_domains.deep_view(),
            self.input().retries as nat,
        )
    }

    /// Takes the facts that do not come from the mail server. Where the
    /// domain is served by a provider that the configuration wants asked in
    /// another way, that way is taken next. Otherwise the probe of the mail
    /// exchangers begins: with a connection to the first of them, or, where
    /// the name of one of them is on the list of skipped domains, with the
    /// end of the check.
    pub fn misc_checked(self, misc: Result<MiscDetails, MiscError>) -> (r: AfterMisc<'a>)
        ensures
            self.mx().records@.len() > 0,
            match r {
                AfterMisc::Ask(next) => {
                    &&& self.method() != ProbeMethod::Dialogue
                    &&& next.method() == self.method()
                    &&& next.input() == self.input()
                    &&& next.syntax() == self.syntax()
                    &&& next.mx() == self.mx()
                    &&& next.misc() == misc
                },
                AfterMisc::Connect(next) => {
                    &&& self.method() == ProbeMethod::Dialogue
                    &&& self.first_step() == StepModel::Connect(next.probe())
                    &&& next.probe().wf()
                    &&& next.input() == self.input()
                    &&& next.syntax() == self.syntax()
                    &&& next.mx() == self.mx()
                    &&& next.misc() == misc
                },
                AfterMisc::Finished(output) => {
                    &&& self.method() == ProbeMethod::Dialogue
                    &&& self.first_step() matches StepModel::Done(result)
                    &&& output == spec_assemble(
                        self.input().to_email,
                        self.syntax(),
                        Ok(self.mx()),
                        misc,
                        result,
                    )
                },
            },
    {
        proof {
            use_type_invariant(&self);
        }
        let method = select_probe(self.input, self.mx.records[0].as_str());
        match method {
            ProbeMethod::Dialogue => {
                match Prober::start(self.input, copy_texts(&self.mx.records)) {
                    ProbeStep::Connect(prober) => AfterMisc::Connect(
                        AwaitingAttempt {
                            input: self.input,
                            syntax: self.syntax,
                            mx: self.mx,
                            misc,
                            prober,
                        },
                    ),
                    ProbeStep::Done(result) => AfterMisc::Finished(
                        CheckEmailOutput::assemble(
                            self.input.to_email.clone(),
                            self.syntax,
                            Ok(self.mx),
                            misc,
                            result,
                        ),
                    ),
                }
            },
            _ => AfterMisc::Ask(
                AwaitingAnswer {
                    input: self.input,
                    syntax: self.syntax,
                    mx: self.mx,
                    misc,
                    method,
                },
            ),
        }
    }
}

impl<'a> AwaitingAnswer<'a> {
    /// The configuration of the check.
    pub closed spec fn input(&self) -> &'a CheckEmailInput {
        self.input
    }

    /// The parts of the address.
    pub closed spec fn syntax(&self) -> SyntaxDetails {
        self.syntax
    }

    /// The mail exchangers of the domain.
    pub closed spec fn mx(&self) -> MxDetails {
        self.mx
    }

    /// The facts that do not come from the mail server.
    pub closed spec fn misc(&self) -> Result<MiscDetails, MiscError> {
        self.misc
    }

    /// The way in which the mail server is asked.
    pub closed spec fn method(&self) -> ProbeMethod {
        self.method
    }

    /// The way in which the mail server is to be asked.
    pub fn probe_method(&self) -> (r: ProbeMethod)
        ensures
            r == self.method(),
    {
        self.method
    }

    /// Takes the answer and ends the check.
    pub fn answered(self, answer: Outcome) -> (r: CheckEmailOutput)
        ensures
            r == spec_assemble(
                self.input().to_email,
                self.syntax(),
                Ok(self.mx()),
                self.misc(),
                answer,
            ),
    {
        CheckEmailOutput::assemble(
            self.input.to_email.clone(),
            self.syntax,
            Ok(self.mx),
            self.misc,
            answer,
        )
    }
}

impl<'a> AwaitingAttempt<'a> {
    /// The configuration of the check.
    pub closed spec fn input(&self) -> &'a CheckEmailInput {
        self.input
    }

    /// The parts of the address.
    pub closed spec fn syntax(&self) -> SyntaxDetails {
        self.syntax
    }

    /// The mail exchangers of the domain.
    pub closed spec fn mx(&self) -> MxDetails {
        self.mx
    }

    /// The facts that do not come from the mail server.
    pub closed spec fn misc(&self) -> Result<MiscDetails, MiscError> {
        self.misc
    }

    /// The probe of the mail exchangers, with the attempt under way.
    pub closed spec fn probe(&self) -> ProbeModel {
        self.prober@
    }

    /// The name of the host to connect to.
    pub fn host(&self) -> (r: &str)
        ensures
            self.probe().host < self.probe().hosts.len(),
            r@ == self.probe().hosts[self.probe().host as int]@,
    {
        self.prober.host()
    }

    /// Takes the outcome of the attempt. The probe decides what follows:
    /// another connection, or the end of the check with the result of the
    /// probe.
    pub fn attempted(self, outcome: Outcome) -> (r: AfterAttempt<'a>)
        ensures
            match r {
                AfterAttempt::Connect(next) => {
                    &&& self.probe().step(outcome) == StepModel::Connect(next.probe())
                    &&& next.probe().wf()
                    &&& next.input() == self.input()
                    &&& next.syntax() == self.syntax()
                    &&& next.mx() == self.mx()
                    &&& next.misc() == self.misc()
                },
                AfterAttempt::Finished(output) => {
                    &&& self.probe().step(outcome) matches StepModel::Done(result)
                    &&& output == spec_assemble(
                        self.input().to_email,
                        self.syntax(),
                        Ok(self.mx()),
                        self.misc(),
                        result,
                    )
                },
            },
    {
        match self.prober.step(outcome) {
            ProbeStep::Connect(prober) => AfterAttempt::Connect(
                AwaitingAttempt {
                    input: self.input,
                    syntax: self.syntax,
                    mx: self.mx,
                    misc: self.misc,
                    prober,
                },
            ),
            ProbeStep::Done(result) => AfterAttempt::Finished(
                CheckEmailOutput::assemble(
                    self.input.to_email.clone(),
                    self.syntax,
                    Ok(self.mx),
                    self.misc,
                    result,
                ),
            ),
        }
    }
}

/// When an attempt fails in a way that a retry may mend, a retry is left and
/// the next attempt goes through, the check ends as it would have ended had
/// the first attempt gone through: the output holds the details of the
/// dialogue and nothing of the failure, and the verdict is not `Unknown`. It
/// is `Safe` or `Risky` where the server accepted the recipient.
pub proof fn lemma_retry_leaves_no_trace(
    probe: ProbeModel,
    error: SmtpError,
    details: SmtpDetails,
    input: String,
    syntax: SyntaxDetails,
    mx: MxDetails,
    misc: Result<MiscDetails, MiscError>,
)
    requires
        probe.wf(),
        probe.left > 0,
        error.spec_is_retryable(),
        syntax.is_valid_syntax,
        mx.spec_accepts_mail(),
    ensures
        probe.step(Err(error)) matches StepModel::Connect(again) && again.step(Ok(details))
            == StepModel::Done(Ok(details)) && probe.step(Ok(details)) == StepModel::Done(
            Ok(details),
        ),
        spec_assemble(input, syntax, Ok(mx), misc, Ok(details)).smtp == Ok::<
            SmtpDetails,
            SmtpError,
        >(details),
        spec_assemble(input, syntax, Ok(mx), misc, Ok(details)).is_reachable != Reachable::Unknown,
        is_accepted(details) ==> {
            let verdict = spec_assemble(input, syntax, Ok(mx), misc, Ok(details)).is_reachable;
            verdict == Reachable::Safe || verdict == Reachable::Risky
        },
{
}

} // verus!
