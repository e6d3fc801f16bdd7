//! Which responses and connection errors send a request on to the next upstream.
use std::sync::Arc;

use ahash::HashSet;
use vstd::prelude::*;
use vstd::std_specs::convert::FromSpecImpl;
use vstd::string::StringExecFns;

use crate::decimal;
use crate::globals::{AppFallbackRoute, PassiveHealthRoute};
use crate::sets;

verus! {

/// HTTP status codes that count as health failures where passive health is configured
/// without a list of its own.
pub const DEFAULT_UNHEALTHY_STATUSES: [u16; 3] = [502, 503, 504];

/// Health-related failover triggers. A failure observed on real traffic is recorded in the
/// upstream's health state and the request is retried against the next upstream.
#[derive(Debug, PartialEq, Eq)]
pub struct PassiveHealthConfig {
    /// HTTP status codes treated as health failures (default 502, 503 and 504).
    pub unhealthy_statuses: Arc<HashSet<u16>>,
    /// Whether connection errors (timeout, refused, etc.) count as health failures.
    pub on_connection_failure: bool,
}

/// Application-level routing fallback for migration and canary scenarios. Retries against the
/// next upstream and leaves upstream health alone: these statuses say that the application
/// has no such route, not that the upstream is sick.
#[derive(Debug, PartialEq, Eq)]
pub struct AppFallbackConfig {
    /// HTTP status codes that trigger a routing retry (such as 404 and 501 in a migration).
    pub fallback_on_statuses: Arc<HashSet<u16>>,
}

/// Combined failover behavior. At least one of `passive_health` and `app_fallback` is set: a
/// route with neither has no failover configuration at all.
#[derive(Debug, PartialEq, Eq)]
pub struct FailoverConfig {
    pub passive_health: Option<PassiveHealthConfig>,
    pub app_fallback: Option<AppFallbackConfig>,
    /// Maximum number of retries (default: number of upstreams - 1).
    pub max_retries: usize,
    /// Opt-in to retry non-idempotent methods (POST, PATCH), which risks writing twice.
    pub retry_non_idempotent: bool,
    /// Every status that triggers a retry, joined once when the configuration is built so
    /// that each request shares it instead of allocating a set of its own.
    retry_status_union: Arc<HashSet<u16>>,
}

/// Raw input for passive health (every field optional, defaults applied at build).
#[derive(Debug, Clone)]
pub struct PassiveHealthInput {
    pub unhealthy_statuses: Option<Vec<u16>>,
    pub on_connection_failure: Option<bool>,
}

/// Raw input for application-level fallback. The list is required: this is a routing
/// decision, not a health one, and has no sensible default.
#[derive(Debug, Clone)]
pub struct AppFallbackInput {
    pub fallback_on_statuses: Vec<u16>,
}

/// Outcome of classifying a response status against the failover configuration.
#[derive(Debug, Clone, Copy, PartialEq, Eq)]
pub enum StatusClassification {
    /// The upstream is failing: record it and retry.
    HealthFailure,
    /// The application has no such route: retry without touching health.
    AppFallback,
    /// No configured trigger: pass the response through.
    Pass,
}

/// What a `PassiveHealthConfig` stands for.
#[verifier::ext_equal]
pub struct PassiveHealthView {
    pub unhealthy_statuses: Set<u16>,
    pub on_connection_failure: bool,
}

/// What an `AppFallbackConfig` stands for.
#[verifier::ext_equal]
pub struct AppFallbackView {
    pub fallback_on_statuses: Set<u16>,
}

/// What a `FailoverConfig` stands for.
#[verifier::ext_equal]
pub struct FailoverView {
    pub passive_health: Option<PassiveHealthView>,
    pub app_fallback: Option<AppFallbackView>,
    pub max_retries: nat,
    pub retry_non_idempotent: bool,
    /// The statuses that were joined when the configuration was built.
    pub retry_statuses: Set<u16>,
}

impl View for PassiveHealthConfig {
    type V = PassiveHealthView;

    open spec fn view(&self) -> PassiveHealthView {
        PassiveHealthView {
            unhealthy_statuses: self.unhealthy_statuses@,
            on_connection_failure: self.on_connection_failure,
        }
    }
}

impl View for AppFallbackConfig {
    type V = AppFallbackView;

    open spec fn view(&self) -> AppFallbackView {
        AppFallbackView { fallback_on_statuses: self.fallback_on_statuses@ }
    }
}

/// What an optional passive health section stands for.
pub open spec fn passive_health_view(section: Option<PassiveHealthConfig>) -> Option<
    PassiveHealthView,
> {
    match section {
        Some(config) => Some(config@),
        None => None,
    }
}

/// What an optional fallback section stands for.
pub open spec fn app_fallback_view(section: Option<AppFallbackConfig>) -> Option<AppFallbackView> {
    match section {
        Some(config) => Some(config@),
        None => None,
    }
}

impl View for FailoverConfig {
    type V = FailoverView;

    closed spec fn view(&self) -> FailoverView {
        FailoverView {
            passive_health: passive_health_view(self.passive_health),
            app_fallback: app_fallback_view(self.app_fallback),
            max_retries: self.max_retries as nat,
            retry_non_idempotent: self.retry_non_idempotent,
            retry_statuses: self.retry_status_union@,
        }
    }
}

impl FailoverConfig {
    /// The passive health section.
    pub closed spec fn passive_section(&self) -> Option<PassiveHealthConfig> {
        self.passive_health
    }

    /// The fallback section.
    pub closed spec fn app_section(&self) -> Option<AppFallbackConfig> {
        self.app_fallback
    }

    /// The set that was joined when the configuration was built.
    pub closed spec fn joined_set(&self) -> Arc<HashSet<u16>> {
        self.retry_status_union
    }

    /// With one section set, the joined set is that section's own.
    pub open spec fn shares_its_only_section(&self) -> bool {
        match (self.passive_section(), self.app_section()) {
            (Some(ph), None) => self.joined_set() == ph.unhealthy_statuses,
            (None, Some(af)) => self.joined_set() == af.fallback_on_statuses,
            _ => true,
        }
    }
}

impl PassiveHealthInput {
    /// The section that this input describes, with the defaults filled in.
    pub open spec fn with_defaults(self) -> PassiveHealthView {
        PassiveHealthView {
            unhealthy_statuses: match self.unhealthy_statuses {
                Some(list) => list@.to_set(),
                None => DEFAULT_UNHEALTHY_STATUSES@.to_set(),
            },
            on_connection_failure: match self.on_connection_failure {
                Some(choice) => choice,
                None => true,
            },
        }
    }
}

impl AppFallbackInput {
    /// The section that this input describes.
    pub open spec fn described(self) -> AppFallbackView {
        AppFallbackView { fallback_on_statuses: self.fallback_on_statuses@.to_set() }
    }
}

/// The statuses that either section lists.
pub open spec fn statuses_of(
    passive_health: Option<PassiveHealthView>,
    app_fallback: Option<AppFallbackView>,
) -> Set<u16> {
    let unhealthy = match passive_health {
        Some(section) => section.unhealthy_statuses,
        None => Set::empty(),
    };
    let fallback = match app_fallback {
        Some(section) => section.fallback_on_statuses,
        None => Set::empty(),
    };
    unhealthy.union(fallback)
}

/// One retry fewer than there are upstreams, and none without upstreams.
pub open spec fn default_max_retries(num_upstreams: nat) -> nat {
    if num_upstreams == 0 {
        0
    } else {
        (num_upstreams - 1) as nat
    }
}

/// Client and server errors are the statuses that may trigger a retry.
pub open spec fn in_range(status: u16) -> bool {
    400 <= status < 600
}

/// Every status of a set is in range.
pub open spec fn all_in_range(statuses: Set<u16>) -> bool {
    forall|status: u16| #[trigger] statuses.contains(status) ==> in_range(status)
}

/// How the passive health list is named in messages.
pub open spec fn passive_health_list() -> Seq<char> {
    "passive_health.unhealthy_statuses"@
}

/// How the fallback list is named in messages.
pub open spec fn app_fallback_list() -> Seq<char> {
    "app_fallback.fallback_on_statuses"@
}

/// The message about a status out of range in the list of that name.
pub open spec fn out_of_range_message(list: Seq<char>, status: u16) -> Seq<char> {
    list + " contains "@ + decimal::decimal(status as nat) + " (must be 400-599)"@
}

/// The message names the list and one of its statuses that is out of range.
pub open spec fn names_out_of_range(
    message: Seq<char>,
    list: Seq<char>,
    statuses: Set<u16>,
) -> bool {
    exists|status: u16| #[trigger]
        statuses.contains(status) && !in_range(status) && message == out_of_range_message(
            list,
            status,
        )
}

impl FailoverView {
    /// The configuration that raw inputs describe; none where neither section is requested.
    pub open spec fn described(
        passive_health: Option<PassiveHealthInput>,
        app_fallback: Option<AppFallbackInput>,
        max_retries: Option<usize>,
        retry_non_idempotent: Option<bool>,
        num_upstreams: usize,
    ) -> Option<FailoverView> {
        if passive_health is None && app_fallback is None {
            None
        } else {
            let passive_health = match passive_health {
                Some(input) => Some(input.with_defaults()),
                None => None,
            };
            let app_fallback = match app_fallback {
                Some(input) => Some(input.described()),
                None => None,
            };
            Some(
                FailoverView {
                    passive_health,
                    app_fallback,
                    max_retries: match max_retries {
                        Some(limit) => limit as nat,
                        None => default_max_retries(num_upstreams as nat),
                    },
                    retry_non_idempotent: match retry_non_idempotent {
                        Some(choice) => choice,
                        None => false,
                    },
                    retry_statuses: statuses_of(passive_health, app_fallback),
                },
            )
        }
    }

    /// At least one section is set, and the joined statuses are those of the sections.
    pub open spec fn wf(self) -> bool {
        &&& self.passive_health is Some || self.app_fallback is Some
        &&& self.retry_statuses == statuses_of(self.passive_health, self.app_fallback)
    }

    /// The passive health section lists this status.
    pub open spec fn is_unhealthy(self, status: u16) -> bool {
        self.passive_health matches Some(section) && section.unhealthy_statuses.contains(status)
    }

    /// The fallback section lists this status.
    pub open spec fn is_fallback(self, status: u16) -> bool {
        self.app_fallback matches Some(section) && section.fallback_on_statuses.contains(status)
    }

    /// What a response with this status calls for. Health comes first, so that a failure is
    /// recorded even where the fallback section lists the status too.
    pub open spec fn classify(self, status: u16) -> StatusClassification {
        if self.is_unhealthy(status) {
            StatusClassification::HealthFailure
        } else if self.is_fallback(status) {
            StatusClassification::AppFallback
        } else {
            StatusClassification::Pass
        }
    }

    /// Every status of the passive health section is in range.
    pub open spec fn passive_health_in_range(self) -> bool {
        self.passive_health matches Some(section) ==> all_in_range(section.unhealthy_statuses)
    }

    /// Every status of the fallback section is in range.
    pub open spec fn app_fallback_in_range(self) -> bool {
        self.app_fallback matches Some(section) ==> all_in_range(section.fallback_on_statuses)
    }
}

impl Clone for PassiveHealthConfig {
    /// A copy that shares the set of statuses.
    fn clone(&self) -> (copy: Self)
        ensures
            copy == *self,
    {
        PassiveHealthConfig {
            unhealthy_statuses: self.unhealthy_statuses.clone(),
            on_connection_failure: self.on_connection_failure,
        }
    }
}

impl Clone for AppFallbackConfig {
    /// A copy that shares the set of statuses.
    fn clone(&self) -> (copy: Self)
        ensures
            copy == *self,
    {
        AppFallbackConfig { fallback_on_statuses: self.fallback_on_statuses.clone() }
    }
}

impl Clone for FailoverConfig {
    /// A copy that shares the sets of statuses.
    fn clone(&self) -> (copy: Self)
        ensures
            copy == *self,
    {
        FailoverConfig {
            passive_health: self.passive_health.clone(),
            app_fallback: self.app_fallback.clone(),
            max_retries: self.max_retries,
            retry_non_idempotent: self.retry_non_idempotent,
            retry_status_union: self.retry_status_union.clone(),
        }
    }
}

impl Default for PassiveHealthInput {
    /// An input that leaves everything to the defaults.
    fn default() -> (input: Self)
        ensures
            input.unhealthy_statuses is None,
            input.on_connection_failure is None,
    {
        PassiveHealthInput { unhealthy_statuses: None, on_connection_failure: None }
    }
}

// A copied list equals its source in what it holds, not as a `Vec` value. So `from_spec` is
// not obeyed, and the `ensures` of each `from` says what the copy holds.
impl FromSpecImpl<&PassiveHealthRoute> for PassiveHealthInput {
    open spec fn obeys_from_spec() -> bool {
        false
    }

    open spec fn from_spec(r: &PassiveHealthRoute) -> Self {
        PassiveHealthInput {
            unhealthy_statuses: r.unhealthy_statuses,
            on_connection_failure: r.on_connection_failure,
        }
    }
}

impl From<&PassiveHealthRoute> for PassiveHealthInput {
    fn from(r: &PassiveHealthRoute) -> (input: Self)
        ensures
            input.unhealthy_statuses is Some <==> r.unhealthy_statuses is Some,
            r.unhealthy_statuses matches Some(list) ==> input.unhealthy_statuses->0@ == list@,
            input.on_connection_failure == r.on_connection_failure,
    {
        PassiveHealthInput {
            unhealthy_statuses: r.unhealthy_statuses.clone(),
            on_connection_failure: r.on_connection_failure,
        }
    }
}

impl FromSpecImpl<&AppFallbackRoute> for AppFallbackInput {
    open spec fn obeys_from_spec() -> bool {
        false
    }

    open spec fn from_spec(r: &AppFallbackRoute) -> Self {
        AppFallbackInput { fallback_on_statuses: r.fallback_on_statuses }
    }
}

impl From<&AppFallbackRoute> for AppFallbackInput {
    fn from(r: &AppFallbackRoute) -> (input: Self)
        ensures
            input.fallback_on_statuses@ == r.fallback_on_statuses@,
    {
        AppFallbackInput { fallback_on_statuses: r.fallback_on_statuses.clone() }
    }
}

/// Joins the trigger statuses of both sections. With one section set its own set is shared;
/// with both, the union is allocated once.
fn compute_retry_status_union(
    passive_health: &Option<PassiveHealthConfig>,
    app_fallback: &Option<AppFallbackConfig>,
) -> (union: Arc<HashSet<u16>>)
    ensures
        union@ == statuses_of(
            passive_health_view(*passive_health),
            app_fallback_view(*app_fallback),
        ),
        passive_health matches Some(ph) ==> app_fallback is None ==> union
            == ph.unhealthy_statuses,
        app_fallback matches Some(af) ==> passive_health is None ==> union
            == af.fallback_on_statuses,
{
    match (passive_health, app_fallback) {
        (Some(ph), None) => ph.unhealthy_statuses.clone(),
        (None, Some(af)) => af.fallback_on_statuses.clone(),
        (Some(ph), Some(af)) => Arc::new(
            sets::union_of(&ph.unhealthy_statuses, &af.fallback_on_statuses),
        ),
        (None, None) => Arc::new(HashSet::default()),
    }
}

/// The message about a status out of range in the list of that name.
fn describe_out_of_range(list: &str, status: u16) -> (message: String)
    ensures
        message@ == out_of_range_message(list@, status),
{
    let mut message = String::new();
    message.append(list);
    message.append(" contains ");
    decimal::push_decimal(&mut message, status);
    message.append(" (must be 400-599)");
    message
}

/// Checks the statuses of a list in the order given. The error is about the first one that is
/// not a client or server error.
pub fn check_statuses(list: &str, statuses: &[u16]) -> (result: Result<(), String>)
    ensures
        match result {
            Ok(()) => forall|i: int|
                0 <= i < statuses@.len() ==> 400 <= #[trigger] statuses@[i] <= 599,
            Err(message) => exists|i: int|
                {
                    &&& 0 <= i < statuses@.len()
                    &&& !(400 <= #[trigger] statuses@[i] <= 599)
                    &&& forall|j: int| 0 <= j < i ==> 400 <= #[trigger] statuses@[j] <= 599
                    &&& message@ == list@ + " contains "@ + decimal::decimal(
                        statuses@[i] as nat,
                    ) + " (must be 400-599)"@
                },
        },
        match result {
            Ok(()) => forall|i: int|
                0 <= i < statuses@.len() ==> in_range(#[trigger] statuses@[i]),
            Err(message) => exists|i: int|
                {
                    &&& 0 <= i < statuses@.len()
                    &&& !in_range(#[trigger] statuses@[i])
                    &&& forall|j: int| 0 <= j < i ==> in_range(#[trigger] statuses@[j])
                    &&& message@ == out_of_range_message(list@, statuses@[i])
                },
        },
{
    for i in 0..statuses.len()
        invariant
            forall|j: int| 0 <= j < i ==> in_range(#[trigger] statuses@[j]),
    {
        let status: u16 = statuses[i];
        if status < 400 || status >= 600 {
            return Err(describe_out_of_range(list, status));
        }
    }
    Ok(())
}

/// Checks the statuses of a set, in whatever order the set is walked.
fn check_set(list: &str, statuses: &HashSet<u16>) -> (result: Result<(), String>)
    ensures
        match result {
            Ok(()) => all_in_range(statuses@),
            Err(message) => names_out_of_range(message@, list@, statuses@),
        },
{
    let keys = sets::keys_of(statuses);
    let result = check_statuses(list, keys.as_slice());
    proof {
        match &result {
            Ok(()) => {
                assert forall|status: u16| #[trigger] statuses@.contains(status) implies in_range(
                    status,
                ) by {
                    assert(keys@.to_set().contains(status));
                    assert(keys@.contains(status));
                }
            },
            Err(message) => {
                let i = choose|i: int|
                    {
                        &&& 0 <= i < keys@.len()
                        &&& !in_range(#[trigger] keys@[i])
                        &&& message@ == out_of_range_message(list@, keys@[i])
                    };
                assert(keys@.contains(keys@[i]));
                assert(statuses@.contains(keys@[i]));
            },
        }
    }
    result
}

impl FailoverConfig {
    /// Builds the configuration from raw inputs. Returns `None` if neither section is
    /// requested: the route then has no failover.
    pub fn build(
        passive_health: Option<PassiveHealthInput>,
        app_fallback: Option<AppFallbackInput>,
        max_retries: Option<usize>,
        retry_non_idempotent: Option<bool>,
        num_upstreams: usize,
    ) -> (config: Option<Self>)
        ensures
            match config {
                Some(config) => FailoverView::described(
                    passive_health,
                    app_fallback,
                    max_retries,
                    retry_non_idempotent,
                    num_upstreams,
                ) == Some(config@),
                None => passive_health is None && app_fallback is None,
            },
            config matches Some(config) ==> {
                &&& config@.wf()
                &&& config.shares_its_only_section()
                &&& config.passive_section() is Some && config.app_section() is None
                    ==> config.joined_set() == config.passive_section()->0.unhealthy_statuses
                &&& config.passive_section() is None && config.app_section() is Some
                    ==> config.joined_set() == config.app_section()->0.fallback_on_statuses
            },
    {
        if passive_health.is_none() && app_fallback.is_none() {
            return None;
        }
        let passive_health = match passive_health {
            Some(input) => Some(
                PassiveHealthConfig {
                    unhealthy_statuses: Arc::new(
                        match input.unhealthy_statuses {
                            Some(list) => sets::set_of(list.as_slice()),
                            None => sets::set_of(DEFAULT_UNHEALTHY_STATUSES.as_slice()),
                        },
                    ),
                    on_connection_failure: input.on_connection_failure.unwrap_or(true),
                },
            ),
            None => None,
        };
        let app_fallback = match app_fallback {
            Some(input) => Some(
                AppFallbackConfig {
                    fallback_on_statuses: Arc::new(
                        sets::set_of(input.fallback_on_statuses.as_slice()),
                    ),
                },
            ),
            None => None,
        };
        let retry_status_union = compute_retry_status_union(&passive_health, &app_fallback);
        Some(
            FailoverConfig {
                passive_health,
                app_fallback,
                max_retries: max_retries.unwrap_or(num_upstreams.saturating_sub(1)),
                retry_non_idempotent: retry_non_idempotent.unwrap_or(false),
                retry_status_union,
            },
        )
    }

    /// Validates that all configured status codes are client or server errors. The error is
    /// about one status out of range; the passive health section is looked at first.
    pub fn validate(&self) -> (result: Result<(), String>)
        ensures
            result is Ok <==> self@.passive_health_in_range() && self@.app_fallback_in_range(),
            result is Ok <==> {
                &&& self@.passive_health matches Some(section) ==> forall|status: u16| #[trigger]
                    section.unhealthy_statuses.contains(status) ==> 400 <= status <= 599
                &&& self@.app_fallback matches Some(section) ==> forall|status: u16| #[trigger]
                    section.fallback_on_statuses.contains(status) ==> 400 <= status <= 599
            },
            result matches Err(message) ==> if !self@.passive_health_in_range() {
                names_out_of_range(
                    message@,
                    passive_health_list(),
                    self@.passive_health->0.unhealthy_statuses,
                )
            } else {
                names_out_of_range(
                    message@,
                    app_fallback_list(),
                    self@.app_fallback->0.fallback_on_statuses,
                )
            },
    {
        if let Some(ph) = &self.passive_health {
            check_set("passive_health.unhealthy_statuses", &ph.unhealthy_statuses)?;
        }
        if let Some(af) = &self.app_fallback {
            check_set("app_fallback.fallback_on_statuses", &af.fallback_on_statuses)?;
        }
        Ok(())
    }

    /// The passive health section, where there is one.
    pub fn passive_health(&self) -> (section: Option<&PassiveHealthConfig>)
        ensures
            match section {
                Some(config) => {
                    &&& self.passive_section() == Some(*config)
                    &&& self@.passive_health == Some(config@)
                },
                None => self.passive_section() is None && self@.passive_health is None,
            },
    {
        self.passive_health.as_ref()
    }

    /// The fallback section, where there is one.
    pub fn app_fallback(&self) -> (section: Option<&AppFallbackConfig>)
        ensures
            match section {
                Some(config) => {
                    &&& self.app_section() == Some(*config)
                    &&& self@.app_fallback == Some(config@)
                },
                None => self.app_section() is None && self@.app_fallback is None,
            },
    {
        self.app_fallback.as_ref()
    }

    /// Whether connection errors count as health failures, where there is a passive health
    /// section to say so.
    pub fn on_connection_failure(&self) -> (choice: Option<bool>)
        ensures
            choice == (match self@.passive_health {
                Some(section) => Some(section.on_connection_failure),
                None => None,
            }),
    {
        match &self.passive_health {
            Some(ph) => Some(ph.on_connection_failure),
            None => None,
        }
    }

    /// The maximum number of retries.
    pub fn max_retries(&self) -> (limit: usize)
        ensures
            limit == self@.max_retries,
    {
        self.max_retries
    }

    /// Whether non-idempotent methods are retried.
    pub fn retry_non_idempotent(&self) -> (choice: bool)
        ensures
            choice == self@.retry_non_idempotent,
    {
        self.retry_non_idempotent
    }

    /// Every status code that triggers a retry, whichever section lists it. The set was joined
    /// in `build` and is shared, not copied.
    pub fn all_retry_statuses(&self) -> (statuses: Arc<HashSet<u16>>)
        ensures
            statuses == self.joined_set(),
            statuses@ == self@.retry_statuses,
    {
        self.retry_status_union.clone()
    }

    /// Whether a status is a health failure: what `classify_status` says of it, without a look
    /// at the fallback section.
    pub fn is_health_failure_status(&self, status: u16) -> (failure: bool)
        ensures
            failure == self@.is_unhealthy(status),
            failure <==> self@.passive_health is Some
                && self@.passive_health->0.unhealthy_statuses.contains(status),
    {
        broadcast use vstd::std_specs::hash::group_hash_axioms;

        match &self.passive_health {
            Some(ph) => sets::set_contains(&ph.unhealthy_statuses, &status),
            None => false,
        }
    }

    /// Classifies a response status, for the retry loop to decide whether to record a failure,
    /// retry, or pass the response through.
    pub fn classify_status(&self, status: u16) -> (class: StatusClassification)
        ensures
            class == self@.classify(status),
            class == StatusClassification::HealthFailure <==> self@.passive_health is Some
                && self@.passive_health->0.unhealthy_statuses.contains(status),
            class == StatusClassification::Pass <==> {
                &&& self@.passive_health matches Some(section)
                    ==> !section.unhealthy_statuses.contains(status)
                &&& self@.app_fallback matches Some(section)
                    ==> !section.fallback_on_statuses.contains(status)
            },
    {
        broadcast use vstd::std_specs::hash::group_hash_axioms;

        let passive_match = match &self.passive_health {
            Some(ph) => sets::set_contains(&ph.unhealthy_statuses, &status),
            None => false,
        };
        if passive_match {
            return StatusClassification::HealthFailure;
        }
        let app_match = match &self.app_fallback {
            Some(af) => sets::set_contains(&af.fallback_on_statuses, &status),
            None => false,
        };
        if app_match {
            return StatusClassification::AppFallback;
        }
        StatusClassification::Pass
    }
}

/// A configuration exists exactly where a section is requested, and it is then well-formed,
/// with the sections that were requested and no others.
pub proof fn law_built_iff_requested(
    passive_health: Option<PassiveHealthInput>,
    app_fallback: Option<AppFallbackInput>,
    max_retries: Option<usize>,
    retry_non_idempotent: Option<bool>,
    num_upstreams: usize,
)
    ensures
        ({
            let built = FailoverView::described(
                passive_health,
                app_fallback,
                max_retries,
                retry_non_idempotent,
                num_upstreams,
            );
            &&& built is Some <==> passive_health is Some || app_fallback is Some
            &&& built matches Some(config) ==> {
                &&& config.wf()
                &&& config.passive_health is Some <==> passive_health is Some
                &&& config.app_fallback is Some <==> app_fallback is Some
            }
        }),
{
}

/// The view and the spec accessors show the fields as they are.
proof fn law_view_shows_fields(config: FailoverConfig)
    ensures
        config@.passive_health == (match config.passive_health {
            Some(ph) => Some(
                PassiveHealthView {
                    unhealthy_statuses: ph.unhealthy_statuses@,
                    on_connection_failure: ph.on_connection_failure,
                },
            ),
            None => None,
        }),
        config@.app_fallback == (match config.app_fallback {
            Some(af) => Some(
                AppFallbackView { fallback_on_statuses: af.fallback_on_statuses@ },
            ),
            None => None,
        }),
        config@.max_retries == config.max_retries,
        config@.retry_non_idempotent == config.retry_non_idempotent,
        config@.retry_statuses == config.retry_status_union@,
        config.passive_section() == config.passive_health,
        config.app_section() == config.app_fallback,
        config.joined_set() == config.retry_status_union,
{
}

/// The view of a section shows its fields as they are.
pub proof fn law_section_views_show_fields(ph: PassiveHealthConfig, af: AppFallbackConfig)
    ensures
        ph@.unhealthy_statuses == ph.unhealthy_statuses@,
        ph@.on_connection_failure == ph.on_connection_failure,
        af@.fallback_on_statuses == af.fallback_on_statuses@,
{
}

/// What an input says explicitly is kept as it is said, whatever else is asked for. Left out,
/// connection errors count as failures and non-idempotent methods are not retried.
pub proof fn law_explicit_choices_are_kept(
    passive_health: Option<PassiveHealthInput>,
    app_fallback: Option<AppFallbackInput>,
    max_retries: Option<usize>,
    retry_non_idempotent: Option<bool>,
    num_upstreams: usize,
)
    requires
        passive_health is Some || app_fallback is Some,
    ensures
        ({
            let built = FailoverView::described(
                passive_health,
                app_fallback,
                max_retries,
                retry_non_idempotent,
                num_upstreams,
            )->0;
            &&& max_retries matches Some(limit) ==> built.max_retries == limit
            &&& retry_non_idempotent matches Some(choice) ==> built.retry_non_idempotent == choice
            &&& retry_non_idempotent is None ==> !built.retry_non_idempotent
            &&& passive_health matches Some(input) ==> {
                let section = built.passive_health->0;
                &&& input.on_connection_failure matches Some(choice)
                    ==> section.on_connection_failure == choice
                &&& input.on_connection_failure is None ==> section.on_connection_failure
            }
        }),
{
}

/// A built configuration treats a status by the lists of its inputs: a health failure exactly
/// when the passive health list holds it (502, 503 and 504 without a list), a fallback exactly
/// when it is no health failure and the fallback list holds it, and a status to retry exactly
/// when one of the lists holds it.
pub proof fn law_built_config_follows_the_lists(
    passive_health: Option<PassiveHealthInput>,
    app_fallback: Option<AppFallbackInput>,
    max_retries: Option<usize>,
    retry_non_idempotent: Option<bool>,
    num_upstreams: usize,
    status: u16,
)
    requires
        passive_health is Some || app_fallback is Some,
    ensures
        ({
            let built = FailoverView::described(
                passive_health,
                app_fallback,
                max_retries,
                retry_non_idempotent,
                num_upstreams,
            )->0;
            let unhealthy = match passive_health {
                Some(input) => match input.unhealthy_statuses {
                    Some(list) => list@.contains(status),
                    None => status == 502 || status == 503 || status == 504,
                },
                None => false,
            };
            let fallback = match app_fallback {
                Some(input) => input.fallback_on_statuses@.contains(status),
                None => false,
            };
            &&& passive_health is Some ==> (
            built.passive_health->0.unhealthy_statuses.contains(status) <==> unhealthy)
            &&& app_fallback is Some ==> (
            built.app_fallback->0.fallback_on_statuses.contains(status) <==> fallback)
            &&& built.is_unhealthy(status) <==> unhealthy
            &&& built.classify(status) == StatusClassification::HealthFailure <==> unhealthy
            &&& built.classify(status) == StatusClassification::AppFallback <==> !unhealthy
                && fallback
            &&& built.classify(status) == StatusClassification::Pass <==> !unhealthy && !fallback
            &&& built.retry_statuses.contains(status) <==> unhealthy || fallback
        }),
{
    lemma_default_statuses();
}

/// A status is classified by the sets of the sections: a health failure exactly when there is
/// a passive health section that lists it, a fallback exactly when that is not so and there is
/// a fallback section that lists it, and passed through otherwise.
pub proof fn law_classified_by_sections(config: FailoverView, status: u16)
    ensures
        ({
            let unhealthy = config.passive_health is Some
                && config.passive_health->0.unhealthy_statuses.contains(status);
            let fallback = config.app_fallback is Some
                && config.app_fallback->0.fallback_on_statuses.contains(status);
            &&& config.is_unhealthy(status) <==> unhealthy
            &&& config.classify(status) == StatusClassification::HealthFailure <==> unhealthy
            &&& config.classify(status) == StatusClassification::AppFallback <==> !unhealthy
                && fallback
            &&& config.classify(status) == StatusClassification::Pass <==> !unhealthy && !fallback
        }),
{
}

/// The statuses in range are those from 400 to 599, and a section is in range exactly when
/// every status that it lists is one of these.
pub proof fn law_range_is_400_to_599(config: FailoverView)
    ensures
        forall|status: u16| #[trigger] in_range(status) <==> 400 <= status && status <= 599,
        config.passive_health_in_range() <==> (config.passive_health matches Some(section)
            ==> forall|status: u16| #[trigger]
            section.unhealthy_statuses.contains(status) ==> 400 <= status && status <= 599),
        config.app_fallback_in_range() <==> (config.app_fallback matches Some(section)
            ==> forall|status: u16| #[trigger]
            section.fallback_on_statuses.contains(status) ==> 400 <= status && status <= 599),
{
}

/// The message about a status names the list, the status in decimal and the range.
pub proof fn law_message_text(list: Seq<char>, status: u16)
    ensures
        out_of_range_message(list, status) == list + " contains "@ + decimal::decimal(
            status as nat,
        ) + " (must be 400-599)"@,
        passive_health_list() == "passive_health.unhealthy_statuses"@,
        app_fallback_list() == "app_fallback.fallback_on_statuses"@,
{
}

/// A message that is given for a list is about a status that the list holds and that is not
/// from 400 to 599.
pub proof fn law_message_is_about_an_offender(
    message: Seq<char>,
    list: Seq<char>,
    statuses: Set<u16>,
)
    requires
        names_out_of_range(message, list, statuses),
    ensures
        exists|status: u16|
            {
                &&& #[trigger] statuses.contains(status)
                &&& status < 400 || 599 < status
                &&& message == list + " contains "@ + decimal::decimal(status as nat)
                    + " (must be 400-599)"@
            },
{
}

/// By default a request can be sent to each upstream once: first to the one selected, then by
/// one retry to each of the others. With one upstream there is nothing to retry against.
pub proof fn law_default_budget_covers_upstreams(
    passive_health: Option<PassiveHealthInput>,
    app_fallback: Option<AppFallbackInput>,
    retry_non_idempotent: Option<bool>,
    num_upstreams: usize,
)
    requires
        passive_health is Some || app_fallback is Some,
    ensures
        ({
            let max_retries = FailoverView::described(
                passive_health,
                app_fallback,
                None,
                retry_non_idempotent,
                num_upstreams,
            )->0.max_retries;
            &&& num_upstreams > 0 ==> 1 + max_retries == num_upstreams
            &&& num_upstreams <= 1 ==> max_retries == 0
        }),
{
}

/// The health verdict alone agrees with the full classification.
pub proof fn law_health_verdict_is_classification(config: FailoverView, status: u16)
    ensures
        config.is_unhealthy(status) <==> config.classify(status)
            == StatusClassification::HealthFailure,
{
}

/// A status in both sections is a health failure: health takes priority.
pub proof fn law_health_takes_priority(config: FailoverView, status: u16)
    requires
        config.is_unhealthy(status),
        config.is_fallback(status),
    ensures
        config.classify(status) == StatusClassification::HealthFailure,
{
}

/// Without a passive health section no status is a health failure.
pub proof fn law_fallback_only_never_fails_health(config: FailoverView, status: u16)
    requires
        config.passive_health is None,
    ensures
        !config.is_unhealthy(status),
        config.classify(status) != StatusClassification::HealthFailure,
{
}

/// The joined statuses are exactly those that are not passed through.
pub proof fn law_retry_statuses_are_the_triggers(config: FailoverView, status: u16)
    requires
        config.wf(),
    ensures
        config.retry_statuses.contains(status) <==> config.classify(status)
            != StatusClassification::Pass,
{
}

/// A configuration validates exactly when every joined status is in range.
pub proof fn law_valid_iff_retry_statuses_in_range(config: FailoverView)
    requires
        config.wf(),
    ensures
        config.passive_health_in_range() && config.app_fallback_in_range() <==> (forall|
            status: u16,
        | #[trigger]
            config.retry_statuses.contains(status) ==> 400 <= status <= 599),
{
    if forall|status: u16| #[trigger]
        config.retry_statuses.contains(status) ==> 400 <= status <= 599 {
        if let Some(section) = config.passive_health {
            assert forall|status: u16| #[trigger]
                section.unhealthy_statuses.contains(status) implies in_range(status) by {
                assert(config.retry_statuses.contains(status));
            }
        }
        if let Some(section) = config.app_fallback {
            assert forall|status: u16| #[trigger]
                section.fallback_on_statuses.contains(status) implies in_range(status) by {
                assert(config.retry_statuses.contains(status));
            }
        }
    }
}

/// A configuration that validates passes every status through that is no client or server
/// error: a success or a redirect is never retried.
pub proof fn law_valid_config_passes_other_statuses(config: FailoverView, status: u16)
    requires
        config.passive_health_in_range(),
        config.app_fallback_in_range(),
        status < 400 || 599 < status,
    ensures
        config.classify(status) == StatusClassification::Pass,
{
}

/// The default statuses are 502, 503 and 504.
pub proof fn lemma_default_statuses()
    ensures
        DEFAULT_UNHEALTHY_STATUSES@.to_set() == set![502u16, 503u16, 504u16],
{
    let statuses = DEFAULT_UNHEALTHY_STATUSES@;
    assert(statuses == seq![502u16, 503u16, 504u16]);
    assert(statuses[0] == 502 && statuses[1] == 503 && statuses[2] == 504);
    assert(statuses.to_set() =~= set![502u16, 503u16, 504u16]);
}

/// A passive health section left to its defaults is in range.
pub proof fn law_defaults_are_in_range(input: PassiveHealthInput)
    requires
        input.unhealthy_statuses is None,
    ensures
        all_in_range(input.with_defaults().unhealthy_statuses),
        forall|status: u16| #[trigger]
            input.with_defaults().unhealthy_statuses.contains(status) ==> 400 <= status <= 599,
{
    lemma_default_statuses();
}

} // verus!
