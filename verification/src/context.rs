//! What a request keeps track of while it is retried.
use ahash::HashSet;
use vstd::prelude::*;

use crate::failover::{AppFallbackInput, FailoverView, PassiveHealthInput};
use crate::sets;

verus! {

/// Context tracking state during failover retries.
#[derive(Debug)]
pub struct FailoverContext {
    /// Indices of the upstreams that have been tried.
    tried_upstreams: HashSet<usize>,
    /// Current retry count.
    pub retry_count: usize,
    /// Index of the initial upstream selected by the load balancer.
    pub initial_upstream_idx: usize,
}

/// What a `FailoverContext` stands for.
#[verifier::ext_equal]
pub struct ContextView {
    pub tried: Set<usize>,
    pub retry_count: nat,
    pub initial: usize,
}

impl ContextView {
    /// A request that has tried no upstream yet.
    pub open spec fn new(initial: usize) -> Self {
        ContextView { tried: Set::empty(), retry_count: 0, initial }
    }

    /// The context with one more upstream tried.
    pub open spec fn mark_tried(self, idx: usize) -> Self {
        ContextView { tried: self.tried.insert(idx), ..self }
    }

    /// The context with one more retry counted.
    pub open spec fn increment_retry(self) -> Self {
        ContextView { retry_count: self.retry_count + 1, ..self }
    }

    /// There is a retry left under a limit.
    pub open spec fn can_retry(self, max_retries: nat) -> bool {
        self.retry_count < max_retries
    }

    /// The context after a sequence of upstreams was marked.
    pub open spec fn mark_all(self, marks: Seq<usize>) -> Self
        decreases marks.len(),
    {
        if marks.len() == 0 {
            self
        } else {
            self.mark_all(marks.drop_last()).mark_tried(marks.last())
        }
    }

    /// The context after `n` retries.
    pub open spec fn after_retries(self, n: nat) -> Self
        decreases n,
    {
        if n == 0 {
            self
        } else {
            self.after_retries((n - 1) as nat).increment_retry()
        }
    }
}

impl View for FailoverContext {
    type V = ContextView;

    closed spec fn view(&self) -> ContextView {
        ContextView {
            tried: self.tried_upstreams@,
            retry_count: self.retry_count as nat,
            initial: self.initial_upstream_idx,
        }
    }
}

impl Clone for FailoverContext {
    fn clone(&self) -> (copy: Self)
        ensures
            copy@ == self@,
    {
        FailoverContext {
            tried_upstreams: sets::set_clone(&self.tried_upstreams),
            retry_count: self.retry_count,
            initial_upstream_idx: self.initial_upstream_idx,
        }
    }
}

impl FailoverContext {
    /// Creates a context that starts from the given upstream index.
    pub fn new(initial_upstream_idx: usize) -> (context: Self)
        ensures
            context@ == ContextView::new(initial_upstream_idx),
            context@.tried == Set::<usize>::empty(),
            context@.retry_count == 0,
            context@.initial == initial_upstream_idx,
    {
        FailoverContext {
            tried_upstreams: HashSet::default(),
            retry_count: 0,
            initial_upstream_idx,
        }
    }

    /// Checks whether an upstream has already been tried.
    pub fn has_tried(&self, upstream_idx: usize) -> (tried: bool)
        ensures
            tried == self@.tried.contains(upstream_idx),
    {
        broadcast use vstd::std_specs::hash::group_hash_axioms;

        sets::set_contains(&self.tried_upstreams, &upstream_idx)
    }

    /// Marks an upstream as tried.
    pub fn mark_tried(&mut self, upstream_idx: usize)
        ensures
            final(self)@ == old(self)@.mark_tried(upstream_idx),
            final(self)@.tried == old(self)@.tried.insert(upstream_idx),
            final(self)@.retry_count == old(self)@.retry_count,
            final(self)@.initial == old(self)@.initial,
    {
        broadcast use vstd::std_specs::hash::group_hash_axioms;

        sets::set_insert(&mut self.tried_upstreams, upstream_idx);
    }

    /// The number of retries counted so far.
    pub fn retry_count(&self) -> (count: usize)
        ensures
            count == self@.retry_count,
    {
        self.retry_count
    }

    /// The index of the upstream that the load balancer selected.
    pub fn initial_upstream_idx(&self) -> (idx: usize)
        ensures
            idx == self@.initial,
    {
        self.initial_upstream_idx
    }

    /// Checks whether the limit on retries leaves one more.
    pub fn can_retry(&self, max_retries: usize) -> (more: bool)
        ensures
            more == self@.can_retry(max_retries as nat),
            more <==> self@.retry_count < max_retries,
    {
        self.retry_count < max_retries
    }

    /// Counts one retry.
    pub fn increment_retry(&mut self)
        requires
            old(self)@.retry_count < usize::MAX,
        ensures
            final(self)@ == old(self)@.increment_retry(),
            final(self)@.retry_count == old(self)@.retry_count + 1,
            final(self)@.tried == old(self)@.tried,
            final(self)@.initial == old(self)@.initial,
    {
        self.retry_count += 1;
    }
}

/// The view shows the fields as they are.
proof fn law_view_shows_fields(context: FailoverContext)
    ensures
        context@.tried == context.tried_upstreams@,
        context@.retry_count == context.retry_count,
        context@.initial == context.initial_upstream_idx,
{
}

/// Counting a retry adds exactly one to the count, whatever upstreams were marked, and a mark
/// leaves the count as it is. Neither moves the initial index.
pub proof fn law_each_retry_counts_once(context: ContextView, idx: usize)
    ensures
        context.increment_retry().retry_count == context.retry_count + 1,
        context.increment_retry().tried == context.tried,
        context.increment_retry().initial == context.initial,
        context.mark_tried(idx).retry_count == context.retry_count,
        context.mark_tried(idx).initial == context.initial,
        forall|other: usize| #[trigger]
            context.mark_tried(idx).tried.contains(other) <==> context.tried.contains(other)
                || other == idx,
{
}

/// A retry is left exactly while fewer than the limit were counted.
pub proof fn law_budget_is_the_limit(context: ContextView, max_retries: nat)
    ensures
        context.can_retry(max_retries) <==> context.retry_count < max_retries,
{
}

/// However marks and retries follow one another on a fresh context, the count is the number of
/// retries among them, a retry is left exactly while that is below the limit, and an upstream
/// is tried exactly when it was marked. In `steps`, `Some(idx)` marks an upstream and `None`
/// counts a retry; `states` are those that the context goes through.
pub proof fn law_any_interleaving(
    initial: usize,
    steps: Seq<Option<usize>>,
    states: Seq<ContextView>,
)
    requires
        states.len() == steps.len() + 1,
        states[0] == ContextView::new(initial),
        forall|k: int|
            #![trigger steps[k]]
            0 <= k < steps.len() ==> states[k + 1] == (match steps[k] {
                Some(idx) => states[k].mark_tried(idx),
                None => states[k].increment_retry(),
            }),
    ensures
        ({
            let retries = steps.filter(|step: Option<usize>| step is None).len();
            let end = states.last();
            &&& end.retry_count == retries
            &&& forall|max_retries: nat| #[trigger]
                end.can_retry(max_retries) <==> retries < max_retries
            &&& forall|idx: usize| #[trigger]
                end.tried.contains(idx) <==> steps.contains(Some(idx))
            &&& end.initial == initial
        }),
    decreases steps.len(),
{
    let is_retry = |step: Option<usize>| step is None;
    reveal(Seq::filter);
    if steps.len() > 0 {
        let rest = steps.drop_last();
        assert forall|k: int| #![trigger rest[k]] 0 <= k < rest.len() implies states.drop_last()[k
            + 1] == (match rest[k] {
            Some(idx) => states.drop_last()[k].mark_tried(idx),
            None => states.drop_last()[k].increment_retry(),
        }) by {
            assert(steps[k] == rest[k]);
        }
        law_any_interleaving(initial, rest, states.drop_last());
        let before = states.drop_last().last();
        let end = states.last();
        let last = steps.last();
        assert(last == steps[steps.len() - 1]);
        assert(end == (match last {
            Some(idx) => before.mark_tried(idx),
            None => before.increment_retry(),
        }));
        assert forall|idx: usize| #[trigger]
            end.tried.contains(idx) <==> steps.contains(Some(idx)) by {
            assert(before.tried.contains(idx) <==> rest.contains(Some(idx)));
            if rest.contains(Some(idx)) {
                let k = choose|k: int| 0 <= k < rest.len() && rest[k] == Some(idx);
                assert(steps[k] == Some(idx));
            }
            if steps.contains(Some(idx)) && last != Some(idx) {
                let k = choose|k: int| 0 <= k < steps.len() && steps[k] == Some(idx);
                assert(rest[k] == Some(idx));
            }
        }
    }
}

/// After any marks on a fresh context, an upstream counts as tried exactly when it was
/// marked. The retry count and the initial index are not touched.
pub proof fn law_tried_iff_marked(initial: usize, marks: Seq<usize>, idx: usize)
    ensures
        ContextView::new(initial).mark_all(marks).tried.contains(idx) <==> marks.contains(idx),
        ContextView::new(initial).mark_all(marks).retry_count == 0,
        ContextView::new(initial).mark_all(marks).initial == initial,
    decreases marks.len(),
{
    if marks.len() > 0 {
        let rest = marks.drop_last();
        law_tried_iff_marked(initial, rest, idx);
        if rest.contains(idx) {
            let i = choose|i: int| 0 <= i < rest.len() && rest[i] == idx;
            assert(marks[i] == idx);
        }
        assert(marks[marks.len() - 1] == marks.last());
        if marks.contains(idx) && idx != marks.last() {
            let i = choose|i: int| 0 <= i < marks.len() && marks[i] == idx;
            assert(rest[i] == idx);
        }
    }
}

/// Marking an upstream twice is marking it once, and a mark is never lost to a later one.
pub proof fn law_marks_persist(context: ContextView, idx: usize, later: usize)
    ensures
        context.mark_tried(idx).mark_tried(idx) == context.mark_tried(idx),
        context.mark_tried(idx).tried.contains(idx),
        context.tried.contains(idx) ==> context.mark_tried(later).tried.contains(idx),
{
    assert(context.mark_tried(idx).mark_tried(idx) =~= context.mark_tried(idx));
}

/// A fresh context allows exactly `max_retries` retries. Counting them leaves the marks and
/// the initial index alone.
pub proof fn law_retry_budget(initial: usize, max_retries: nat, n: nat)
    ensures
        ContextView::new(initial).after_retries(n).can_retry(max_retries) <==> n < max_retries,
        ContextView::new(initial).after_retries(n).retry_count == n,
        ContextView::new(initial).after_retries(n).tried == Set::<usize>::empty(),
        ContextView::new(initial).after_retries(n).initial == initial,
    decreases n,
{
    if n > 0 {
        law_retry_budget(initial, max_retries, (n - 1) as nat);
    }
}

/// Under a configuration that leaves the limit to its default, a request has a retry left
/// exactly as long as there are upstreams beyond the first attempt and the retries so far.
pub proof fn law_default_budget_ends_with_upstreams(
    passive_health: Option<PassiveHealthInput>,
    app_fallback: Option<AppFallbackInput>,
    retry_non_idempotent: Option<bool>,
    num_upstreams: usize,
    initial: usize,
    n: nat,
)
    requires
        passive_health is Some || app_fallback is Some,
    ensures
        ContextView::new(initial).after_retries(n).can_retry(
            FailoverView::described(
                passive_health,
                app_fallback,
                None,
                retry_non_idempotent,
                num_upstreams,
            )->0.max_retries,
        ) <==> 1 + n < num_upstreams,
{
    law_retry_budget(initial, 0, n);
}

/// While a retry is left under some limit, counting it does not overflow.
pub proof fn law_retry_left_can_be_counted(context: ContextView, max_retries: usize)
    requires
        context.can_retry(max_retries as nat),
    ensures
        context.retry_count < usize::MAX,
{
}

/// Marking an upstream and counting a retry do not affect each other.
pub proof fn law_marks_and_retries_commute(context: ContextView, idx: usize)
    ensures
        context.mark_tried(idx).increment_retry() == context.increment_retry().mark_tried(idx),
{
}

} // verus!
