//! When a mail server is connected to, and when again.
//!
//! A probe takes the mail exchangers of a domain in the order in which the
//! resolver gave them. Before anything is connected to, the name of every
//! host is held against the list of skipped domains: where a name contains
//! an entry, the probe ends at once with `SkippedDomain` for the first such
//! host, and no connection is made at all.
//!
//! Otherwise the first host is connected to. An attempt that ends with the
//! details of the dialogue ends the probe, and so does one that ends with a
//! failure after which connecting again cannot help. After any other failure
//! the same host is connected to again, up to `retries` more times; after
//! that the probe goes on to the next host, and where there is none it ends
//! with the last failure.
//!
//! The probe itself connects to nothing. It tells its caller which host to
//! connect to next, and the caller hands back what came of the attempt.

use vstd::prelude::*;

use crate::config::CheckEmailInput;
use crate::smtp::{SmtpDetails, SmtpError};
use crate::text::{chars_of, find, occurs_in};

verus! {

/// What an attempt to hold the dialogue with one host ended with.
pub type Outcome = Result<SmtpDetails, SmtpError>;

/// The name of a host contains an entry of the list of skipped domains.
pub open spec fn is_skipped(host: Seq<char>, skipped: Seq<Seq<char>>) -> bool {
    exists|k: int| 0 <= k < skipped.len() && occurs_in(host, #[trigger] skipped[k])
}

/// The index of the first host from `from` on whose name contains an entry
/// of the list of skipped domains.
pub open spec fn first_skipped(hosts: Seq<String>, skipped: Seq<Seq<char>>, from: int) -> Option<
    int,
>
    decreases hosts.len() - from,
{
    if from < 0 || from >= hosts.len() {
        None
    } else if is_skipped(hosts[from]@, skipped) {
        Some(from)
    } else {
        first_skipped(hosts, skipped, from + 1)
    }
}

/// No host has a name that contains an entry of the list of skipped domains.
pub open spec fn none_skipped(hosts: Seq<String>, skipped: Seq<Seq<char>>) -> bool {
    forall|h: int| 0 <= h < hosts.len() ==> !is_skipped((#[trigger] hosts[h])@, skipped)
}

/// What `first_skipped` finds: nothing where no host from `from` on is
/// skipped, else the first that is.
pub proof fn lemma_first_skipped(hosts: Seq<String>, skipped: Seq<Seq<char>>, from: int)
    requires
        0 <= from,
    ensures
        first_skipped(hosts, skipped, from) is None <==> forall|h: int|
            from <= h < hosts.len() ==> !is_skipped((#[trigger] hosts[h])@, skipped),
        first_skipped(hosts, skipped, from) matches Some(h) ==> {
            &&& from <= h < hosts.len()
            &&& is_skipped(hosts[h]@, skipped)
            &&& forall|j: int| from <= j < h ==> !is_skipped((#[trigger] hosts[j])@, skipped)
        },
    decreases hosts.len() - from,
{
    if from < hosts.len() && !is_skipped(hosts[from]@, skipped) {
        lemma_first_skipped(hosts, skipped, from + 1);
        assert forall|h: int| from <= h < hosts.len() && first_skipped(hosts, skipped, from)
            is None implies !is_skipped((#[trigger] hosts[h])@, skipped) by {
            if h > from {
            }
        }
    }
}

/// Whether the name of a host contains an entry of the list of skipped
/// domains.
pub fn host_is_skipped(host: &str, skipped: &Vec<String>) -> (r: bool)
    ensures
        r == is_skipped(host@, skipped.deep_view()),
{
    let name = chars_of(host);
    let mut k: usize = 0;
    while k < skipped.len()
        invariant
            k <= skipped.len(),
            name@ == host@,
            forall|j: int| 0 <= j < k ==> !occurs_in(host@, #[trigger] skipped.deep_view()[j]),
        decreases skipped.len() - k,
    {
        let entry = chars_of(skipped[k].as_str());
        assert(entry@ == skipped.deep_view()[k as int]);
        if find(&name, &entry) {
            return true;
        }
        k = k + 1;
    }
    false
}

/// A probe with an attempt under way.
pub struct ProbeModel {
    /// The hosts, most preferred first.
    pub hosts: Seq<String>,
    /// The list of skipped domains.
    pub skipped: Seq<Seq<char>>,
    /// How many more times a failed connection to one host is attempted.
    pub retries: nat,
    /// The index of the host that is being connected to.
    pub host: nat,
    /// How many more attempts on this host may follow the one under way.
    pub left: nat,
}

/// What a probe does next.
pub enum StepModel {
    /// Connect to the host of the probe and hand back the outcome.
    Connect(ProbeModel),
    /// The probe has ended with this result.
    Done(Outcome),
}

impl ProbeModel {
    /// The host under attempt exists, no host is skipped, and no more
    /// attempts are left than the configuration allows.
    pub open spec fn wf(self) -> bool {
        &&& self.host < self.hosts.len()
        &&& self.left <= self.retries
        &&& none_skipped(self.hosts, self.skipped)
    }

    /// The number of the attempt under way among those on its host, from 1.
    pub open spec fn attempt(self) -> int {
        self.retries - self.left + 1
    }

    /// How a probe begins: it ends at once where a host is skipped, and
    /// otherwise connects to the first host.
    pub open spec fn start(hosts: Seq<String>, skipped: Seq<Seq<char>>, retries: nat) -> StepModel
        recommends
            hosts.len() > 0,
    {
        match first_skipped(hosts, skipped, 0) {
            Some(h) => StepModel::Done(Err(SmtpError::SkippedDomain(hosts[h]))),
            None => StepModel::Connect(
                ProbeModel { hosts, skipped, retries, host: 0, left: retries },
            ),
        }
    }

    /// What follows the outcome of the attempt under way.
    pub open spec fn step(self, outcome: Outcome) -> StepModel {
        match outcome {
            Ok(details) => StepModel::Done(Ok(details)),
            Err(error) => if !error.spec_is_retryable() {
                StepModel::Done(Err(error))
            } else if self.left > 0 {
                StepModel::Connect(ProbeModel { left: (self.left - 1) as nat, ..self })
            } else if self.host + 1 < self.hosts.len() {
                StepModel::Connect(ProbeModel { host: self.host + 1, left: self.retries, ..self })
            } else {
                StepModel::Done(Err(error))
            },
        }
    }
}

impl StepModel {
    /// Where the probe goes on, it is well formed.
    pub open spec fn wf(self) -> bool {
        self matches StepModel::Connect(probe) ==> probe.wf()
    }

    /// How often host `host` is connected to from this step on, when the
    /// attempts end with `outcomes` in turn. An attempt under way counts,
    /// also when its outcome is not among `outcomes`.
    pub open spec fn attempts_on(self, outcomes: Seq<Outcome>, host: nat) -> nat
        decreases outcomes.len(),
    {
        match self {
            StepModel::Done(_) => 0,
            StepModel::Connect(probe) => {
                let this: nat = if probe.host == host {
                    1
                } else {
                    0
                };
                if outcomes.len() == 0 {
                    this
                } else {
                    this + probe.step(outcomes[0]).attempts_on(outcomes.drop_first(), host)
                }
            },
        }
    }

    /// How often any host is connected to from this step on, when the
    /// attempts end with `outcomes` in turn.
    pub open spec fn attempts(self, outcomes: Seq<Outcome>) -> nat
        decreases outcomes.len(),
    {
        match self {
            StepModel::Done(_) => 0,
            StepModel::Connect(probe) => if outcomes.len() == 0 {
                1
            } else {
                1 + probe.step(outcomes[0]).attempts(outcomes.drop_first())
            },
        }
    }

    /// The result with which the probe ends when the attempts end with
    /// `outcomes` in turn, if it ends on these.
    pub open spec fn result(self, outcomes: Seq<Outcome>) -> Option<Outcome>
        decreases outcomes.len(),
    {
        match self {
            StepModel::Done(result) => Some(result),
            StepModel::Connect(probe) => if outcomes.len() == 0 {
                None
            } else {
                probe.step(outcomes[0]).result(outcomes.drop_first())
            },
        }
    }
}

/// The most that host `host` can still be connected to from a step on.
pub open spec fn attempts_allowed_on(step: StepModel, host: nat) -> nat {
    match step {
        StepModel::Done(_) => 0,
        StepModel::Connect(probe) => if host == probe.host {
            probe.left + 1
        } else if host > probe.host {
            probe.retries + 1
        } else {
            0
        },
    }
}

/// The most connections that can still be made from a step on.
pub open spec fn attempts_allowed(step: StepModel) -> int {
    match step {
        StepModel::Done(_) => 0,
        StepModel::Connect(probe) => (probe.hosts.len() - probe.host - 1) * (probe.retries + 1)
            + probe.left + 1,
    }
}

/// A probe begins well formed.
pub proof fn lemma_start_is_wf(hosts: Seq<String>, skipped: Seq<Seq<char>>, retries: nat)
    requires
        hosts.len() > 0,
    ensures
        ProbeModel::start(hosts, skipped, retries).wf(),
{
    lemma_first_skipped(hosts, skipped, 0);
}

/// A probe that goes on stays well formed, with the same hosts, the same
/// list of skipped domains and the same number of retries; and it goes on
/// with the next attempt on the same host or with the first on the next.
pub proof fn lemma_step_keeps_probe(probe: ProbeModel, outcome: Outcome)
    requires
        probe.wf(),
    ensures
        probe.step(outcome).wf(),
        probe.step(outcome) matches StepModel::Connect(next) ==> {
            &&& next.hosts == probe.hosts
            &&& next.skipped == probe.skipped
            &&& next.retries == probe.retries
            &&& (next.host == probe.host && next.attempt() == probe.attempt() + 1) || (next.host
                == probe.host + 1 && next.attempt() == 1)
        },
{
}

/// From any step on, a host is connected to no more often than the attempts
/// that are left for it.
pub proof fn lemma_attempts_on_from(step: StepModel, outcomes: Seq<Outcome>, host: nat)
    requires
        step.wf(),
    ensures
        step.attempts_on(outcomes, host) <= attempts_allowed_on(step, host),
    decreases outcomes.len(),
{
    if let StepModel::Connect(probe) = step {
        if outcomes.len() > 0 {
            lemma_step_keeps_probe(probe, outcomes[0]);
            lemma_attempts_on_from(probe.step(outcomes[0]), outcomes.drop_first(), host);
        }
    }
}

/// With `retries` set to `N`, no host is connected to more than `N + 1`
/// times, whatever the attempts end with.
pub proof fn lemma_attempts_bounded(
    hosts: Seq<String>,
    skipped: Seq<Seq<char>>,
    retries: nat,
    outcomes: Seq<Outcome>,
    host: nat,
)
    requires
        hosts.len() > 0,
    ensures
        ProbeModel::start(hosts, skipped, retries).attempts_on(outcomes, host) <= retries + 1,
{
    lemma_start_is_wf(hosts, skipped, retries);
    lemma_attempts_on_from(ProbeModel::start(hosts, skipped, retries), outcomes, host);
}

/// From any step on, no more connections are made than the hosts that are
/// left allow.
pub proof fn lemma_attempts_from(step: StepModel, outcomes: Seq<Outcome>)
    requires
        step.wf(),
    ensures
        step.attempts(outcomes) <= attempts_allowed(step),
    decreases outcomes.len(),
{
    if let StepModel::Connect(probe) = step {
        let rest = probe.hosts.len() - probe.host - 1;
        assert(rest * (probe.retries + 1) >= 0) by (nonlinear_arith)
            requires
                rest >= 0,
                probe.retries >= 0,
        ;
        if outcomes.len() > 0 {
            let next = probe.step(outcomes[0]);
            lemma_step_keeps_probe(probe, outcomes[0]);
            lemma_attempts_from(next, outcomes.drop_first());
            if let StepModel::Connect(after) = next {
                if after.host == probe.host + 1 {
                    assert((rest - 1) * (probe.retries + 1) + probe.retries + 1 == rest * (
                    probe.retries + 1)) by (nonlinear_arith);
                }
            }
        }
    }
}

/// A probe of `n` hosts with `retries` set to `N` makes no more than
/// `n * (N + 1)` connections, whatever the attempts end with: with one host,
/// no more than `N + 1`.
pub proof fn lemma_all_attempts_bounded(
    hosts: Seq<String>,
    skipped: Seq<Seq<char>>,
    retries: nat,
    outcomes: Seq<Outcome>,
)
    requires
        hosts.len() > 0,
    ensures
        ProbeModel::start(hosts, skipped, retries).attempts(outcomes) <= hosts.len() * (retries
            + 1),
{
    let step = ProbeModel::start(hosts, skipped, retries);
    lemma_start_is_wf(hosts, skipped, retries);
    lemma_attempts_from(step, outcomes);
    if let StepModel::Connect(probe) = step {
        assert((hosts.len() - 1) * (retries + 1) + retries + 1 == hosts.len() * (retries + 1))
            by (nonlinear_arith);
    } else {
        assert(hosts.len() * (retries + 1) >= 0) by (nonlinear_arith);
    }
}

/// Where the name of a host contains an entry of the list of skipped
/// domains, the probe ends before it connects to anything, whatever the
/// number of retries: neither that host nor another is connected to.
pub proof fn lemma_skipped_never_connected(
    hosts: Seq<String>,
    skipped: Seq<Seq<char>>,
    retries: nat,
    outcomes: Seq<Outcome>,
    host: nat,
)
    requires
        host < hosts.len(),
        is_skipped(hosts[host as int]@, skipped),
    ensures
        ProbeModel::start(hosts, skipped, retries) matches StepModel::Done(
            Err(SmtpError::SkippedDomain(_)),
        ),
        ProbeModel::start(hosts, skipped, retries).attempts_on(outcomes, host) == 0,
        ProbeModel::start(hosts, skipped, retries).attempts(outcomes) == 0,
{
    lemma_first_skipped(hosts, skipped, 0);
}

/// The dialogue's details end the probe, and so does a failure after which
/// connecting again cannot help: neither is followed by another attempt.
pub proof fn lemma_final_outcomes(probe: ProbeModel, outcome: Outcome)
    requires
        outcome matches Err(error) ==> !error.spec_is_retryable(),
    ensures
        probe.step(outcome) == StepModel::Done(outcome),
{
}

/// After a failure that a retry may mend, with a retry left, the same host
/// is connected to again; and when that attempt goes through, the probe ends
/// with its details alone, as it would have ended had the first attempt gone
/// through.
pub proof fn lemma_retry_hides_failure(probe: ProbeModel, error: SmtpError, details: SmtpDetails)
    requires
        probe.wf(),
        probe.left > 0,
        error.spec_is_retryable(),
    ensures
        probe.step(Err(error)) matches StepModel::Connect(again) && again.host == probe.host,
        StepModel::Connect(probe).result(seq![Err(error), Ok(details)]) == Some(
            Ok::<SmtpDetails, SmtpError>(details),
        ),
        StepModel::Connect(probe).result(seq![Err(error), Ok(details)]) == StepModel::Connect(
            probe,
        ).result(seq![Ok(details)]),
{
    reveal_with_fuel(StepModel::result, 3);
}

/// A probe with an attempt under way: the caller connects to
/// [`Prober::host`] and hands the outcome to [`Prober::step`].
pub struct Prober<'a> {
    input: &'a CheckEmailInput,
    hosts: Vec<String>,
    host: usize,
    left: usize,
}

/// What the caller of a probe does next.
pub enum ProbeStep<'a> {
    /// Connect to the host of the probe and hand back the outcome.
    Connect(Prober<'a>),
    /// The probe has ended with this result.
    Done(Outcome),
}

impl<'a> View for Prober<'a> {
    type V = ProbeModel;

    closed spec fn view(&self) -> ProbeModel {
        ProbeModel {
            hosts: self.hosts@,
            skipped: self.input.skipped_domains.deep_view(),
            retries: self.input.retries as nat,
            host: self.host as nat,
            left: self.left as nat,
        }
    }
}

impl<'a> View for ProbeStep<'a> {
    type V = StepModel;

    open spec fn view(&self) -> StepModel {
        match self {
            ProbeStep::Connect(prober) => StepModel::Connect(prober@),
            ProbeStep::Done(result) => StepModel::Done(*result),
        }
    }
}

impl<'a> Prober<'a> {
    #[verifier::type_invariant]
    spec fn inv(self) -> bool {
        self@.wf()
    }

    /// The configuration of the probe.
    pub closed spec fn spec_input(&self) -> &'a CheckEmailInput {
        self.input
    }

    /// Begins a probe of the given hosts, most preferred first.
    pub fn start(input: &'a CheckEmailInput, hosts: Vec<String>) -> (r: ProbeStep<'a>)
        requires
            hosts@.len() > 0,
        ensures
            r@ == ProbeModel::start(
                hosts@,
                input.skipped_domains.deep_view(),
                input.retries as nat,
            ),
            r@.wf(),
            r matches ProbeStep::Connect(prober) ==> prober.spec_input() == input,
    {
        let ghost skipped = input.skipped_domains.deep_view();
        let mut h: usize = 0;
        while h < hosts.len()
            invariant
                h <= hosts.len(),
                skipped == input.skipped_domains.deep_view(),
                first_skipped(hosts@, skipped, 0) == first_skipped(hosts@, skipped, h as int),
            decreases hosts.len() - h,
        {
            if host_is_skipped(hosts[h].as_str(), &input.skipped_domains) {
                return ProbeStep::Done(Err(SmtpError::SkippedDomain(hosts[h].clone())));
            }
            h = h + 1;
        }
        proof {
            lemma_first_skipped(hosts@, skipped, 0);
        }
        ProbeStep::Connect(Prober { input, hosts, host: 0, left: input.retries })
    }

    /// Takes the outcome of the attempt under way and says what follows.
    pub fn step(self, outcome: Outcome) -> (r: ProbeStep<'a>)
        ensures
            r@ == self@.step(outcome),
            r@.wf(),
            r matches ProbeStep::Connect(prober) ==> prober.spec_input() == self.spec_input(),
    {
        proof {
            use_type_invariant(&self);
        }
        let hosts = self.hosts.len();
        match outcome {
            Ok(details) => ProbeStep::Done(Ok(details)),
            Err(error) => {
                if !error.is_retryable() {
                    ProbeStep::Done(Err(error))
                } else if self.left > 0 {
                    ProbeStep::Connect(
                        Prober {
                            input: self.input,
                            hosts: self.hosts,
                            host: self.host,
                            left: self.left - 1,
                        },
                    )
                } else if self.host + 1 < hosts {
                    ProbeStep::Connect(
                        Prober {
                            input: self.input,
                            hosts: self.hosts,
                            host: self.host + 1,
                            left: self.input.retries,
                        },
                    )
                } else {
                    ProbeStep::Done(Err(error))
                }
            },
        }
    }

    /// The name of the host to connect to.
    pub fn host(&self) -> (r: &str)
        ensures
            self@.host < self@.hosts.len(),
            r@ == self@.hosts[self@.host as int]@,
    {
        proof {
            use_type_invariant(self);
        }
        self.hosts[self.host].as_str()
    }

    /// The configuration to connect with.
    pub fn input(&self) -> (r: &'a CheckEmailInput)
        ensures
            r == self.spec_input(),
    {
        self.input
    }

    /// How many more attempts on this host may follow the one under way.
    pub fn retries_left(&self) -> (r: usize)
        ensures
            r == self@.left,
    {
        self.left
    }
}

} // verus!
