//! Waiting for a service to come up before the end-to-end checks: probe it
//! once a second, at most sixty times.
use vstd::prelude::*;

verus! {

/// How many probes are made before giving up.
pub const MAX_PROBES: u32 = 60;

/// What is being waited for.
#[derive(Debug, Clone, Copy, PartialEq, Eq)]
pub enum Target {
    /// The web service: ready once it answers with status 200.
    Service,
    /// The WebDriver server: ready once it answers at all.
    WebDriver,
}

impl Target {
    /// The error message when the target did not come up in time.
    pub fn give_up_message(&self) -> (m: &'static str)
        ensures
            m@ == (match *self {
                Target::Service => "Service did not become ready within 60 seconds"@,
                Target::WebDriver => "WebDriver did not become ready within 60 seconds"@,
            }),
    {
        match self {
            Target::Service => "Service did not become ready within 60 seconds",
            Target::WebDriver => "WebDriver did not become ready within 60 seconds",
        }
    }
}

/// The outcome of one probe.
#[derive(Debug, Clone, Copy, PartialEq, Eq)]
pub enum ProbeOutcome {
    /// An HTTP response with this status code.
    Answered(u16),
    /// No response: the connection or the request failed.
    NoAnswer,
}

/// What to do after a probe.
#[derive(Debug, Clone, Copy, PartialEq, Eq)]
pub enum WaitAction {
    /// The target is ready: stop waiting.
    Ready,
    /// Sleep a second and probe again.
    SleepThenProbe,
    /// Sleep a second and give up: the last probe has been made.
    SleepThenGiveUp,
}

/// Whether a probe outcome shows the target ready.
pub open spec fn shows_ready(target: Target, outcome: ProbeOutcome) -> bool {
    match (target, outcome) {
        (Target::Service, ProbeOutcome::Answered(status)) => status == 200,
        (Target::WebDriver, ProbeOutcome::Answered(_)) => true,
        (_, ProbeOutcome::NoAnswer) => false,
    }
}

/// The action after a probe, given how many probes were made before it.
pub open spec fn action_after(target: Target, probes_before: int, outcome: ProbeOutcome) -> WaitAction {
    if shows_ready(target, outcome) {
        WaitAction::Ready
    } else if probes_before + 1 < MAX_PROBES {
        WaitAction::SleepThenProbe
    } else {
        WaitAction::SleepThenGiveUp
    }
}

/// A wait for one target, counting the probes made so far.
#[derive(Debug, Clone, Copy, PartialEq, Eq)]
pub struct Waiter {
    pub target: Target,
    pub probes: u32,
}

impl Waiter {
    /// A wait that has not probed yet.
    pub fn new(target: Target) -> (w: Waiter)
        ensures
            w.target == target,
            w.probes == 0,
    {
        Waiter { target, probes: 0 }
    }

    /// Whether a probe outcome shows the target ready.
    pub fn is_ready(&self, outcome: ProbeOutcome) -> (ready: bool)
        ensures
            ready == shows_ready(self.target, outcome),
            self.target == Target::Service ==> (ready <==> outcome == ProbeOutcome::Answered(200)),
            self.target == Target::WebDriver ==> (ready <==> outcome is Answered),
    {
        match outcome {
            ProbeOutcome::Answered(status) => match self.target {
                Target::Service => status == 200,
                Target::WebDriver => true,
            },
            ProbeOutcome::NoAnswer => false,
        }
    }

    /// Records the outcome of a probe and says what to do next.
    pub fn record(&mut self, outcome: ProbeOutcome) -> (action: WaitAction)
        requires
            old(self).probes < MAX_PROBES,
        ensures
            final(self).target == old(self).target,
            final(self).probes == old(self).probes + 1,
            final(self).probes <= MAX_PROBES,
            action == action_after(old(self).target, old(self).probes as int, outcome),
            old(self).target == Target::Service ==> (action is Ready <==> outcome
                == ProbeOutcome::Answered(200)),
            old(self).target == Target::WebDriver ==> (action is Ready <==> outcome is Answered),
    {
        let ready = self.is_ready(outcome);
        self.probes = self.probes + 1;
        if ready {
            WaitAction::Ready
        } else if self.probes < MAX_PROBES {
            WaitAction::SleepThenProbe
        } else {
            WaitAction::SleepThenGiveUp
        }
    }
}

/// The web service counts as up only on status 200, whatever other status it
/// answers with; the WebDriver server counts as up on any answer; no answer
/// never counts.
pub proof fn lemma_what_counts_as_ready()
    ensures
        forall|status: u16| #[trigger] shows_ready(Target::Service, ProbeOutcome::Answered(status)) <==> status == 200,
        forall|status: u16| #[trigger] shows_ready(Target::WebDriver, ProbeOutcome::Answered(status)),
        forall|t: Target| !#[trigger] shows_ready(t, ProbeOutcome::NoAnswer),
{
}

/// The actions of a wait whose probes have these outcomes, stopping at the
/// first action that is not another probe.
pub open spec fn actions(target: Target, probes_before: int, outcomes: Seq<ProbeOutcome>) -> Seq<WaitAction>
    decreases outcomes.len(),
{
    if outcomes.len() == 0 {
        Seq::empty()
    } else {
        let a = action_after(target, probes_before, outcomes[0]);
        if a is SleepThenProbe {
            seq![a] + actions(target, probes_before + 1, outcomes.drop_first())
        } else {
            seq![a]
        }
    }
}

/// A wait never probes more than sixty times: whatever the outcomes, the
/// actions stop by the sixtieth probe, and the wait gives up only when every
/// one of the sixty probes failed.
pub proof fn lemma_wait_is_bounded(target: Target, probes_before: int, outcomes: Seq<ProbeOutcome>)
    requires
        0 <= probes_before < MAX_PROBES,
    ensures
        actions(target, probes_before, outcomes).len() <= MAX_PROBES - probes_before,
        actions(target, probes_before, outcomes).len() <= outcomes.len(),
        forall|i: int|
            0 <= i < actions(target, probes_before, outcomes).len() ==> (
            #[trigger] actions(target, probes_before, outcomes)[i] is SleepThenGiveUp
                <==> (probes_before + i + 1 == MAX_PROBES && !shows_ready(target, outcomes[i]))),
        forall|i: int|
            0 <= i < actions(target, probes_before, outcomes).len() - 1 ==> #[trigger] actions(
                target,
                probes_before,
                outcomes,
            )[i] is SleepThenProbe && !shows_ready(target, outcomes[i]),
    decreases outcomes.len(),
{
    if outcomes.len() > 0 {
        let a = action_after(target, probes_before, outcomes[0]);
        if a is SleepThenProbe {
            lemma_wait_is_bounded(target, probes_before + 1, outcomes.drop_first());
            let rest = actions(target, probes_before + 1, outcomes.drop_first());
            assert forall|i: int|
                0 < i < actions(target, probes_before, outcomes).len() implies #[trigger] actions(
                target,
                probes_before,
                outcomes,
            )[i] == rest[i - 1] && outcomes[i] == outcomes.drop_first()[i - 1] by {}
        }
    }
}

} // verus!
