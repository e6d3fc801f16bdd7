//! A two-state counter that changes state after enough consecutive observations against it.
use vstd::prelude::*;

verus! {

/// Counts consecutive observations that contradict the current state.
#[derive(Debug)]
pub struct ConsecutiveCounter {
    unhealthy_threshold: u32,
    healthy_threshold: u32,
    healthy: bool,
    streak: u32,
}

/// What a `ConsecutiveCounter` stands for.
pub struct CounterView {
    /// Consecutive failures that make a healthy upstream unhealthy.
    pub unhealthy_threshold: nat,
    /// Consecutive successes that make an unhealthy upstream healthy.
    pub healthy_threshold: nat,
    /// The current state.
    pub healthy: bool,
    /// How many of the latest observations in a row contradict the current state.
    pub streak: nat,
}

/// A change takes at least one observation, also under a threshold of zero.
pub open spec fn at_least_one(threshold: nat) -> nat {
    if threshold == 0 {
        1
    } else {
        threshold
    }
}

impl CounterView {
    /// A counter that has seen nothing: healthy.
    pub open spec fn new(unhealthy_threshold: nat, healthy_threshold: nat) -> Self {
        CounterView { unhealthy_threshold, healthy_threshold, healthy: true, streak: 0 }
    }

    /// How many consecutive observations against the current state end it.
    pub open spec fn threshold(self) -> nat {
        at_least_one(
            if self.healthy {
                self.unhealthy_threshold
            } else {
                self.healthy_threshold
            },
        )
    }

    /// The streak never reaches the threshold: reaching it changes the state.
    pub open spec fn wf(self) -> bool {
        self.streak < self.threshold()
    }

    /// The counter after one more observation.
    pub open spec fn record(self, ok: bool) -> Self {
        if ok == self.healthy {
            CounterView { streak: 0, ..self }
        } else if self.streak + 1 < self.threshold() {
            CounterView { streak: self.streak + 1, ..self }
        } else {
            CounterView { healthy: ok, streak: 0, ..self }
        }
    }

    /// What one more observation reports: the new state, where the state changes.
    pub open spec fn transition(self, ok: bool) -> Option<bool> {
        if self.record(ok).healthy != self.healthy {
            Some(self.record(ok).healthy)
        } else {
            None
        }
    }
}

impl View for ConsecutiveCounter {
    type V = CounterView;

    closed spec fn view(&self) -> CounterView {
        CounterView {
            unhealthy_threshold: self.unhealthy_threshold as nat,
            healthy_threshold: self.healthy_threshold as nat,
            healthy: self.healthy,
            streak: self.streak as nat,
        }
    }
}

impl ConsecutiveCounter {
    #[verifier::type_invariant]
    spec fn streak_below_threshold(self) -> bool {
        self@.wf()
    }

    /// A counter in the healthy state that has seen no observation yet.
    pub fn new(unhealthy_threshold: u32, healthy_threshold: u32) -> (counter: Self)
        ensures
            counter@ == CounterView::new(unhealthy_threshold as nat, healthy_threshold as nat),
            counter@.wf(),
    {
        ConsecutiveCounter { unhealthy_threshold, healthy_threshold, healthy: true, streak: 0 }
    }

    /// Takes in one observation. Returns the new state if this observation changed it.
    pub fn record(&mut self, ok: bool) -> (changed: Option<bool>)
        ensures
            final(self)@ == old(self)@.record(ok),
            changed == old(self)@.transition(ok),
            final(self)@.wf(),
    {
        proof {
            use_type_invariant(&*self);
        }
        if ok == self.healthy {
            self.streak = 0;
            return None;
        }
        let threshold: u32 = if self.healthy {
            self.unhealthy_threshold
        } else {
            self.healthy_threshold
        };
        let streak: u32 = self.streak + 1;
        if streak < threshold {
            self.streak = streak;
            None
        } else {
            self.streak = 0;
            self.healthy = ok;
            Some(ok)
        }
    }
}

impl CounterView {
    /// The counter after a sequence of observations, the oldest first.
    pub open spec fn record_all(self, observations: Seq<bool>) -> Self
        decreases observations.len(),
    {
        if observations.len() == 0 {
            self
        } else {
            self.record_all(observations.drop_last()).record(observations.last())
        }
    }
}

/// How many of the latest observations in a row equal `ok`.
pub open spec fn trailing_run(observations: Seq<bool>, ok: bool) -> nat
    decreases observations.len(),
{
    if observations.len() == 0 || observations.last() != ok {
        0
    } else {
        trailing_run(observations.drop_last(), ok) + 1
    }
}

/// The state that a history of observations calls for: healthy at first, unhealthy once
/// `unhealthy_threshold` failures in a row are seen while healthy, healthy again once
/// `healthy_threshold` successes in a row are seen while unhealthy.
pub open spec fn healthy_after(
    unhealthy_threshold: nat,
    healthy_threshold: nat,
    observations: Seq<bool>,
) -> bool
    decreases observations.len(),
{
    if observations.len() == 0 {
        true
    } else if healthy_after(unhealthy_threshold, healthy_threshold, observations.drop_last()) {
        trailing_run(observations, false) < at_least_one(unhealthy_threshold)
    } else {
        trailing_run(observations, true) >= at_least_one(healthy_threshold)
    }
}

/// A threshold of one or more is taken as it is configured; only zero is read as one.
pub proof fn law_thresholds_are_taken_as_given(threshold: nat)
    ensures
        threshold >= 1 ==> at_least_one(threshold) == threshold,
        at_least_one(0) == 1,
{
}

/// What the latest observations say of a counter that started fresh: the streak is the run of
/// observations against the state, and the observation before that run agreed with it.
proof fn lemma_streak_is_latest_run(
    unhealthy_threshold: nat,
    healthy_threshold: nat,
    observations: Seq<bool>,
    states: Seq<CounterView>,
    i: int,
)
    requires
        states.len() == observations.len() + 1,
        states[0] == CounterView::new(unhealthy_threshold, healthy_threshold),
        forall|k: int|
            #![trigger observations[k]]
            0 <= k < observations.len() ==> states[k + 1] == states[k].record(observations[k]),
        0 <= i <= observations.len(),
    ensures
        states[i].unhealthy_threshold == unhealthy_threshold,
        states[i].healthy_threshold == healthy_threshold,
        states[i].wf(),
        states[i].streak <= i,
        forall|j: int|
            i - states[i].streak <= j < i ==> #[trigger] observations[j] == !states[i].healthy,
        states[i].streak < i ==> observations[i - states[i].streak - 1] == states[i].healthy,
    decreases i,
{
    if i > 0 {
        lemma_streak_is_latest_run(
            unhealthy_threshold,
            healthy_threshold,
            observations,
            states,
            i - 1,
        );
        assert(states[i] == states[i - 1].record(observations[i - 1]));
    }
}

/// The state of a counter changes, and the change is reported, exactly when the latest
/// observation is against the state and ends a run of equal observations as long as the
/// threshold asks for: `unhealthy_threshold` failures while healthy, `healthy_threshold`
/// successes while unhealthy. `states` are those of a counter that starts fresh and takes in
/// `observations` one by one.
pub proof fn law_changes_follow_runs(
    unhealthy_threshold: nat,
    healthy_threshold: nat,
    observations: Seq<bool>,
    states: Seq<CounterView>,
)
    requires
        states.len() == observations.len() + 1,
        states[0] == CounterView::new(unhealthy_threshold, healthy_threshold),
        forall|k: int|
            #![trigger observations[k]]
            0 <= k < observations.len() ==> states[k + 1] == states[k].record(observations[k]),
    ensures
        states[0].healthy,
        forall|i: int|
            #![trigger observations[i]]
            0 <= i < observations.len() ==> {
                let ok = observations[i];
                let needed = if states[i].healthy {
                    unhealthy_threshold
                } else {
                    healthy_threshold
                };
                let changes = ok != states[i].healthy && i + 1 >= needed && (forall|j: int|
                    i + 1 - needed <= j <= i ==> #[trigger] observations[j] == ok);
                &&& states[i + 1].healthy == (if changes {
                    ok
                } else {
                    states[i].healthy
                })
                &&& states[i].transition(ok) == (if changes {
                    Some(ok)
                } else {
                    None
                })
            },
{
    assert forall|i: int|
        #![trigger observations[i]]
        0 <= i < observations.len() implies {
        let ok = observations[i];
        let needed = if states[i].healthy {
            unhealthy_threshold
        } else {
            healthy_threshold
        };
        let changes = ok != states[i].healthy && i + 1 >= needed && (forall|j: int|
            i + 1 - needed <= j <= i ==> #[trigger] observations[j] == ok);
        &&& states[i + 1].healthy == (if changes {
            ok
        } else {
            states[i].healthy
        })
        &&& states[i].transition(ok) == (if changes {
            Some(ok)
        } else {
            None
        })
    } by {
        lemma_streak_is_latest_run(
            unhealthy_threshold,
            healthy_threshold,
            observations,
            states,
            i,
        );
        let streak = states[i].streak as int;
        if streak < i {
            assert(observations[i - streak - 1] == states[i].healthy);
        }
    }
}

/// Every observation keeps the invariant and the thresholds.
pub proof fn law_record_keeps_invariant(counter: CounterView, ok: bool)
    requires
        counter.wf(),
    ensures
        counter.record(ok).wf(),
        counter.record(ok).unhealthy_threshold == counter.unhealthy_threshold,
        counter.record(ok).healthy_threshold == counter.healthy_threshold,
{
}

/// A report names a state that the counter was not in and now is in, the one observed;
/// without a report the state stands.
pub proof fn law_report_is_a_change(counter: CounterView, ok: bool)
    ensures
        counter.transition(ok) matches Some(state) ==> {
            &&& state == ok
            &&& state != counter.healthy
            &&& counter.record(ok).healthy == state
        },
        counter.transition(ok) is None ==> counter.record(ok).healthy == counter.healthy,
{
}

/// An observation that agrees with the current state ends the streak against it: the whole
/// threshold has to be reached anew.
pub proof fn law_agreement_resets(counter: CounterView)
    ensures
        counter.record(counter.healthy) == (CounterView { streak: 0, ..counter }),
        counter.transition(counter.healthy) is None,
{
}

/// The state after any history is the one that the consecutive runs in it call for.
pub proof fn law_state_follows_history(
    unhealthy_threshold: nat,
    healthy_threshold: nat,
    observations: Seq<bool>,
)
    ensures
        ({
            let counter = CounterView::new(unhealthy_threshold, healthy_threshold).record_all(
                observations,
            );
            &&& counter.healthy == healthy_after(
                unhealthy_threshold,
                healthy_threshold,
                observations,
            )
            &&& counter.streak == trailing_run(observations, !counter.healthy)
            &&& counter.unhealthy_threshold == unhealthy_threshold
            &&& counter.healthy_threshold == healthy_threshold
            &&& counter.wf()
        }),
    decreases observations.len(),
{
    if observations.len() > 0 {
        law_state_follows_history(
            unhealthy_threshold,
            healthy_threshold,
            observations.drop_last(),
        );
    }
}

/// A run of observations against the current state changes it exactly when the streak
/// reaches the configured threshold, and no more of them change it back.
pub proof fn law_run_changes_state(counter: CounterView, n: nat)
    requires
        counter.wf(),
    ensures
        ({
            let after = counter.record_all(Seq::new(n, |i: int| !counter.healthy));
            let needed = if counter.healthy {
                counter.unhealthy_threshold
            } else {
                counter.healthy_threshold
            };
            &&& after.healthy != counter.healthy <==> n > 0 && counter.streak + n >= needed
            &&& after.healthy == counter.healthy ==> after.streak == counter.streak + n
            &&& after.healthy != counter.healthy ==> after.streak == 0
            &&& after.unhealthy_threshold == counter.unhealthy_threshold
            &&& after.healthy_threshold == counter.healthy_threshold
        }),
    decreases n,
{
    if n > 0 {
        let run = Seq::new(n, |i: int| !counter.healthy);
        let shorter = Seq::new((n - 1) as nat, |i: int| !counter.healthy);
        assert(run.drop_last() =~= shorter);
        law_run_changes_state(counter, (n - 1) as nat);
    }
}

} // verus!
