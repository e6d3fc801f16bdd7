//! The health state of one upstream.
use vstd::prelude::*;

use crate::health_check::counter;
use crate::health_check::counter::{ConsecutiveCounter, CounterView};

verus! {

/// Health state of a single upstream. The active health checker and, where configured, the
/// request handler feed it the same way, so a single `unhealthy_threshold` governs the
/// change of state wherever the failure was observed.
///
/// Recording takes `&mut self`: an owner that shares the state between tasks guards it with
/// a lock.
#[derive(Debug)]
pub struct UpstreamHealth {
    healthy: bool,
    counter: ConsecutiveCounter,
}

/// What an `UpstreamHealth` stands for.
pub struct HealthView {
    /// The status that `is_healthy` reports.
    pub healthy: bool,
    /// The counter that decides when the status changes.
    pub counter: CounterView,
}

impl HealthView {
    /// The state after one more observation: the status follows the counter where the
    /// counter changes state, and stands otherwise.
    pub open spec fn record(self, ok: bool) -> Self {
        HealthView {
            healthy: match self.counter.transition(ok) {
                Some(state) => state,
                None => self.healthy,
            },
            counter: self.counter.record(ok),
        }
    }

    /// The state after a sequence of observations, the oldest first.
    pub open spec fn record_all(self, observations: Seq<bool>) -> Self
        decreases observations.len(),
    {
        if observations.len() == 0 {
            self
        } else {
            self.record_all(observations.drop_last()).record(observations.last())
        }
    }

    /// A fresh state: healthy.
    pub open spec fn new(unhealthy_threshold: nat, healthy_threshold: nat) -> Self {
        HealthView {
            healthy: true,
            counter: CounterView::new(unhealthy_threshold, healthy_threshold),
        }
    }

    /// The status is that of the counter. This holds unless `set` overrode the status.
    pub open spec fn in_step(self) -> bool {
        self.healthy == self.counter.healthy
    }
}

impl View for UpstreamHealth {
    type V = HealthView;

    closed spec fn view(&self) -> HealthView {
        HealthView { healthy: self.healthy, counter: self.counter@ }
    }
}

impl UpstreamHealth {
    /// Creates a new health state, initialized as healthy (optimistic boot). The thresholds
    /// govern how many consecutive failures (or successes) trigger a change of state.
    pub fn new(unhealthy_threshold: u32, healthy_threshold: u32) -> (health: Self)
        ensures
            health@ == HealthView::new(unhealthy_threshold as nat, healthy_threshold as nat),
            health@.healthy,
            health@.counter == CounterView::new(
                unhealthy_threshold as nat,
                healthy_threshold as nat,
            ),
            health@.counter.wf(),
    {
        UpstreamHealth {
            healthy: true,
            counter: ConsecutiveCounter::new(unhealthy_threshold, healthy_threshold),
        }
    }

    /// Returns the current health status.
    pub fn is_healthy(&self) -> (healthy: bool)
        ensures
            healthy == self@.healthy,
    {
        self.healthy
    }

    /// Records an observation (an active probe's result or a passive observation from a real
    /// request). Returns `Some(new_state)` if the state changed, `None` otherwise.
    pub fn record(&mut self, ok: bool) -> (changed: Option<bool>)
        ensures
            final(self)@ == old(self)@.record(ok),
            changed == old(self)@.counter.transition(ok),
            final(self)@.counter == old(self)@.counter.record(ok),
            changed matches Some(state) ==> state == ok && final(self)@.healthy == ok,
            changed is None ==> final(self)@.healthy == old(self)@.healthy,
            final(self)@.counter.wf(),
    {
        let new_state = self.counter.record(ok);
        if let Some(state) = new_state {
            self.healthy = state;
        }
        new_state
    }

    /// Overrides the status and leaves the counter as it is, for callers that need a
    /// deterministic starting point.
    pub fn set(&mut self, healthy: bool)
        ensures
            final(self)@ == (HealthView { healthy, ..old(self)@ }),
    {
        self.healthy = healthy;
    }
}

/// Recording keeps the status in step with the counter, and brings it back in step when it
/// reports a change. The counter takes in the observation whatever the status is.
pub proof fn law_record_keeps_in_step(health: HealthView, ok: bool)
    ensures
        health.in_step() ==> health.record(ok).in_step(),
        health.counter.transition(ok) matches Some(state) ==> {
            &&& health.record(ok).in_step()
            &&& health.record(ok).healthy == state
        },
        health.counter.transition(ok) is None ==> health.record(ok).healthy == health.healthy,
        health.record(ok).counter == health.counter.record(ok),
{
}

/// A report is made exactly when the status changes, as long as nothing overrode it.
pub proof fn law_report_iff_status_changes(health: HealthView, ok: bool)
    requires
        health.in_step(),
    ensures
        health.counter.transition(ok) == (if health.record(ok).healthy != health.healthy {
            Some(health.record(ok).healthy)
        } else {
            None
        }),
{
}

/// Recording a sequence is recording it in the counter, with the status in step.
pub proof fn law_record_all_follows_counter(health: HealthView, observations: Seq<bool>)
    requires
        health.in_step(),
    ensures
        health.record_all(observations).in_step(),
        health.record_all(observations).counter == health.counter.record_all(observations),
    decreases observations.len(),
{
    if observations.len() > 0 {
        law_record_all_follows_counter(health, observations.drop_last());
    }
}

/// After any history of observations the status is the one that the consecutive runs in it
/// call for.
pub proof fn law_status_follows_history(
    unhealthy_threshold: nat,
    healthy_threshold: nat,
    observations: Seq<bool>,
)
    ensures
        HealthView::new(unhealthy_threshold, healthy_threshold).record_all(observations).healthy
            == counter::healthy_after(unhealthy_threshold, healthy_threshold, observations),
{
    law_record_all_follows_counter(
        HealthView::new(unhealthy_threshold, healthy_threshold),
        observations,
    );
    counter::law_state_follows_history(unhealthy_threshold, healthy_threshold, observations);
}

/// The status of an upstream starts as healthy. It changes, and the change is reported, exactly
/// when the latest observation is against it and ends a run of equal observations as long as
/// the threshold asks for: `unhealthy_threshold` failures while healthy, `healthy_threshold`
/// successes while unhealthy. `states` are those of a fresh upstream that takes in
/// `observations` one by one.
pub proof fn law_status_changes_follow_runs(
    unhealthy_threshold: nat,
    healthy_threshold: nat,
    observations: Seq<bool>,
    states: Seq<HealthView>,
)
    requires
        states.len() == observations.len() + 1,
        states[0] == HealthView::new(unhealthy_threshold, healthy_threshold),
        forall|k: int|
            #![trigger observations[k]]
            0 <= k < observations.len() ==> states[k + 1] == states[k].record(observations[k]),
    ensures
        states[0].healthy,
        forall|i: int|
            #![trigger observations[i]]
            0 <= i < observations.len() ==> {
                let ok = observations[i];
                let needed = if states[i].healthy {
                    unhealthy_threshold
                } else {
                    healthy_threshold
                };
                let changes = ok != states[i].healthy && i + 1 >= needed && (forall|j: int|
                    i + 1 - needed <= j <= i ==> #[trigger] observations[j] == ok);
                &&& states[i + 1].healthy == (if changes {
                    ok
                } else {
                    states[i].healthy
                })
                &&& states[i].counter.transition(ok) == (if changes {
                    Some(ok)
                } else {
                    None
                })
            },
{
    let counters = Seq::new(states.len(), |i: int| states[i].counter);
    counter::law_changes_follow_runs(
        unhealthy_threshold,
        healthy_threshold,
        observations,
        counters,
    );
    assert forall|i: int| 0 <= i < states.len() implies #[trigger] states[i].in_step() by {
        lemma_states_in_step(observations, states, i);
    }
    assert forall|i: int| #![trigger observations[i]] 0 <= i < observations.len() implies {
        &&& states[i].in_step()
        &&& states[i + 1].in_step()
        &&& counters[i] == states[i].counter
        &&& counters[i + 1] == states[i + 1].counter
    } by {
        assert(states[i].in_step());
        assert(states[i + 1].in_step());
    }
}

/// A status that starts in step stays in step under recording.
proof fn lemma_states_in_step(observations: Seq<bool>, states: Seq<HealthView>, i: int)
    requires
        states.len() == observations.len() + 1,
        states[0].in_step(),
        forall|k: int|
            #![trigger observations[k]]
            0 <= k < observations.len() ==> states[k + 1] == states[k].record(observations[k]),
        0 <= i < states.len(),
    ensures
        states[i].in_step(),
    decreases i,
{
    if i > 0 {
        lemma_states_in_step(observations, states, i - 1);
        assert(states[i] == states[i - 1].record(observations[i - 1]));
    }
}

/// From a fresh state, failures in a row mark the upstream unhealthy exactly when there are
/// `unhealthy_threshold` of them, and at least one.
pub proof fn law_failures_mark_unhealthy(
    unhealthy_threshold: nat,
    healthy_threshold: nat,
    failures: nat,
)
    ensures
        HealthView::new(unhealthy_threshold, healthy_threshold).record_all(
            Seq::new(failures, |i: int| false),
        ).healthy <==> failures == 0 || failures < unhealthy_threshold,
{
    let fresh = HealthView::new(unhealthy_threshold, healthy_threshold);
    assert(Seq::new(failures, |i: int| false) =~= Seq::new(
        failures,
        |i: int| !fresh.counter.healthy,
    ));
    law_record_all_follows_counter(fresh, Seq::new(failures, |i: int| false));
    counter::law_run_changes_state(fresh.counter, failures);
}

/// An unhealthy upstream recovers exactly when successes, at least one, bring those in a row,
/// the ones already seen included, to `healthy_threshold`.
pub proof fn law_successes_recover(health: HealthView, successes: nat)
    requires
        health.in_step(),
        !health.healthy,
        health.counter.wf(),
    ensures
        health.record_all(Seq::new(successes, |i: int| true)).healthy <==> successes > 0
            && health.counter.streak + successes >= health.counter.healthy_threshold,
{
    assert(Seq::new(successes, |i: int| true) =~= Seq::new(
        successes,
        |i: int| !health.counter.healthy,
    ));
    law_record_all_follows_counter(health, Seq::new(successes, |i: int| true));
    counter::law_run_changes_state(health.counter, successes);
}

} // verus!
