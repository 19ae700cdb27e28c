//! Routing intent reconciled against complete platform observations.

use vstd::prelude::*;

use crate::identity::{ApplicationId, OutputId};
use crate::keyed::{
    find_key, insert_unique, key_set, keys_sorted, lemma_pair_map_at, lemma_pair_map_dom,
    lemma_sorted_unique, pair_map, remove_key, sorted_unique, upsert, StableKey,
};
use crate::model::{
    option_view, ApplicationSnapshot, ApplicationSnapshotView, Capabilities,
    CapabilityAvailability, Command, CommandError, CommandView, Notice, NoticeView, Observation,
    RouteFailure, RouteFailureView, RouteStatus, RouteStatusView, Snapshot,
};
use crate::text::{lemma_lex_irreflexive, lemma_lex_transitive, lex_lt};

verus! {

/// Owns routing intent and reconciles it against complete platform observations.
///
/// Calls are synchronous and must be serialized by the caller. The engine
/// performs no I/O and retains no native handles. Repeating an equivalent
/// observation is idempotent and emits no duplicate failure notice.
pub struct RouterEngine {
    capabilities: Capabilities,
    active_applications: Vec<ApplicationId>,
    outputs: Vec<OutputId>,
    system_default: Option<OutputId>,
    routes: Vec<(ApplicationId, OutputId)>,
    failure_episodes: Vec<(ApplicationId, RouteFailure)>,
}

/// The mathematical state of a [`RouterEngine`].
pub struct EngineView {
    /// The latest reported capabilities.
    pub capabilities: Capabilities,
    /// The applications of the latest observation.
    pub active: Set<Seq<char>>,
    /// The outputs of the latest observation.
    pub outputs: Set<Seq<char>>,
    /// The latest reported system default.
    pub system_default: Option<Seq<char>>,
    /// Persistent routing intent: application to exact output.
    pub routes: Map<Seq<char>, Seq<char>>,
    /// The failure episode each active application is currently in.
    pub failures: Map<Seq<char>, RouteFailureView>,
}

/// Why a route to `desired` cannot be applied, if it cannot.
pub open spec fn failure_for(
    capabilities: Capabilities,
    outputs: Set<Seq<char>>,
    desired: Seq<char>,
) -> Option<RouteFailureView> {
    match capabilities.application_routing {
        CapabilityAvailability::Available => if outputs.contains(desired) {
            None
        } else {
            Some(RouteFailureView::DesiredOutputUnavailable(desired))
        },
        CapabilityAvailability::Unavailable(reason) => Some(
            RouteFailureView::RoutingUnavailable(reason),
        ),
        CapabilityAvailability::PermissionRequired => Some(RouteFailureView::PermissionRequired),
    }
}

/// Why the saved route of `a` cannot be applied; `None` when it can or when
/// `a` has no saved route.
pub open spec fn route_failure(v: EngineView, a: Seq<char>) -> Option<RouteFailureView> {
    if v.routes.contains_key(a) {
        failure_for(v.capabilities, v.outputs, v.routes[a])
    } else {
        None
    }
}

/// The failure episodes that the state `v` puts its active applications in.
pub open spec fn current_failures(v: EngineView) -> Map<Seq<char>, RouteFailureView> {
    Map::new(
        |a: Seq<char>| v.active.contains(a) && route_failure(v, a) is Some,
        |a: Seq<char>| route_failure(v, a)->0,
    )
}

/// Whether `a` enters a failure episode that differs from the one recorded.
pub open spec fn starts_episode(v: EngineView, a: Seq<char>) -> bool {
    &&& v.active.contains(a)
    &&& route_failure(v, a) is Some
    &&& !(v.failures.contains_key(a) && v.failures[a] == route_failure(v, a)->0)
}

/// `v` with its recorded failure episodes replaced by the current ones.
pub open spec fn reconciled(v: EngineView) -> EngineView {
    EngineView { failures: current_failures(v), ..v }
}

/// The recorded failure episodes are exactly those that the state puts its
/// active applications in.
pub open spec fn consistent(v: EngineView) -> bool {
    v.failures == current_failures(v)
}

/// Reconciling a state makes its recorded episodes the current ones.
pub proof fn lemma_reconciled_consistent(v: EngineView)
    ensures
        consistent(reconciled(v)),
{
    let w = reconciled(v);
    assert forall|a: Seq<char>| route_failure(w, a) == route_failure(v, a) by {}
    assert(current_failures(w) =~= current_failures(v));
}

/// `ns` announces exactly the episodes that `v` starts, ordered by application.
pub open spec fn notices_match(v: EngineView, ns: Seq<NoticeView>) -> bool {
    &&& forall|i: int, j: int|
        0 <= i < j < ns.len() ==> lex_lt(#[trigger] ns[i].application, #[trigger] ns[j].application)
    &&& forall|i: int|
        0 <= i < ns.len() ==> starts_episode(v, #[trigger] ns[i].application) && Some(ns[i].reason)
            == route_failure(v, ns[i].application)
    &&& forall|a: Seq<char>|
        starts_episode(v, a) ==> exists|i: int| 0 <= i < ns.len() && #[trigger] ns[i].application == a
}

/// `v` after the platform reported the complete observation `o`.
pub open spec fn observed(v: EngineView, o: Observation) -> EngineView {
    EngineView {
        capabilities: o.capabilities,
        active: key_set(o.applications@),
        outputs: key_set(o.outputs@),
        system_default: option_view(o.system_default),
        ..v
    }
}

/// Whether the engine in state `v` accepts the command `c`.
pub open spec fn accepts(v: EngineView, c: CommandView) -> bool {
    match c {
        CommandView::SetRoute { .. } => v.capabilities.application_routing
            == CapabilityAvailability::Available,
        CommandView::FollowSystemDefault { .. } => true,
    }
}

/// The stored intent after the accepted command `c`.
pub open spec fn with_intent(v: EngineView, c: CommandView) -> EngineView {
    match c {
        CommandView::SetRoute { application, output } => EngineView {
            routes: v.routes.insert(application, output),
            ..v
        },
        CommandView::FollowSystemDefault { application } => EngineView {
            routes: v.routes.remove(application),
            failures: v.failures.remove(application),
            ..v
        },
    }
}

/// The output selected for `a` and the failure that forced the fallback.
pub open spec fn effective_of(v: EngineView, a: Seq<char>) -> (
    Option<Seq<char>>,
    Option<RouteFailureView>,
) {
    match route_failure(v, a) {
        Some(f) => (v.system_default, Some(f)),
        None => (Some(v.routes[a]), None),
    }
}

/// The snapshot row of application `a` in state `v`.
pub open spec fn app_snapshot(v: EngineView, a: Seq<char>) -> ApplicationSnapshotView {
    let desired = if v.routes.contains_key(a) {
        Some(v.routes[a])
    } else {
        None
    };
    if !v.active.contains(a) {
        ApplicationSnapshotView {
            id: a,
            active: false,
            desired_output: desired,
            effective_output: None,
            route_status: RouteStatusView::Inactive,
        }
    } else if desired is None {
        ApplicationSnapshotView {
            id: a,
            active: true,
            desired_output: None,
            effective_output: v.system_default,
            route_status: RouteStatusView::FollowingSystemDefault,
        }
    } else {
        ApplicationSnapshotView {
            id: a,
            active: true,
            desired_output: desired,
            effective_output: effective_of(v, a).0,
            route_status: match effective_of(v, a).1 {
                Some(f) => RouteStatusView::Fallback(f),
                None => RouteStatusView::Applied,
            },
        }
    }
}

/// Rows are listed active first, then by identity.
pub open spec fn row_before(x: ApplicationSnapshotView, y: ApplicationSnapshotView) -> bool {
    (x.active && !y.active) || (x.active == y.active && lex_lt(x.id, y.id))
}

/// `s` is the snapshot of state `v`.
pub open spec fn snapshot_match(v: EngineView, s: Snapshot) -> bool {
    &&& s.capabilities == v.capabilities
    &&& option_view(s.system_default) == v.system_default
    &&& keys_sorted(s.outputs@)
    &&& key_set(s.outputs@) == v.outputs
    &&& forall|i: int, j: int|
        0 <= i < j < s.applications@.len() ==> row_before(
            #[trigger] s.applications@[i]@,
            #[trigger] s.applications@[j]@,
        )
    &&& forall|i: int|
        0 <= i < s.applications@.len() ==> #[trigger] s.applications@[i]@ == app_snapshot(
            v,
            s.applications@[i]@.id,
        )
    &&& forall|a: Seq<char>|
        (v.active.contains(a) || v.routes.contains_key(a)) <==> exists|i: int|
            0 <= i < s.applications@.len() && #[trigger] s.applications@[i]@.id == a
}

/// `a` is one of the first `n` keys of `s`.
pub open spec fn in_prefix<T: StableKey>(s: Seq<T>, n: int, a: Seq<char>) -> bool {
    exists|j: int| 0 <= j < n && #[trigger] s[j].key() == a
}

impl View for RouterEngine {
    type V = EngineView;

    closed spec fn view(&self) -> EngineView {
        EngineView {
            capabilities: self.capabilities,
            active: key_set(self.active_applications@),
            outputs: key_set(self.outputs@),
            system_default: option_view(self.system_default),
            routes: pair_map(self.routes@),
            failures: pair_map(self.failure_episodes@),
        }
    }
}

impl RouterEngine {
    /// The engine's internal orderings hold.
    closed spec fn sorted(&self) -> bool {
        &&& keys_sorted(self.active_applications@)
        &&& keys_sorted(self.outputs@)
        &&& keys_sorted(self.routes@)
        &&& keys_sorted(self.failure_episodes@)
    }

    /// The engine's internal orderings hold and its recorded failure
    /// episodes are the current ones.
    pub closed spec fn wf(&self) -> bool {
        &&& self.sorted()
        &&& consistent(self@)
    }

    /// Creates an engine from the platform's initial complete observation.
    pub fn new(observation: Observation) -> (engine: Self)
        ensures
            engine.wf(),
            consistent(engine@),
            engine@ == observed(
                EngineView {
                    capabilities: observation.capabilities,
                    active: Set::empty(),
                    outputs: Set::empty(),
                    system_default: None,
                    routes: Map::empty(),
                    failures: Map::empty(),
                },
                observation,
            ),
    {
        let Observation { capabilities, applications, outputs, system_default } = observation;
        let active_applications = sorted_unique(applications);
        let outputs = sorted_unique(outputs);
        let engine = RouterEngine {
            capabilities,
            active_applications,
            outputs,
            system_default,
            routes: Vec::new(),
            failure_episodes: Vec::new(),
        };
        assert(pair_map(engine.routes@) =~= Map::<Seq<char>, Seq<char>>::empty());
        assert(pair_map(engine.failure_episodes@) =~= Map::<Seq<char>, RouteFailureView>::empty());
        assert(current_failures(engine@) =~= Map::<Seq<char>, RouteFailureView>::empty());
        engine
    }

    /// Replaces the previous platform observation and reconciles saved routes.
    ///
    /// The observation must be complete, not a delta. Returned notices are
    /// ordered by application identity and contain only newly started failure
    /// episodes.
    pub fn observe(&mut self, observation: Observation) -> (notices: Vec<Notice>)
        requires
            old(self).wf(),
        ensures
            final(self).wf(),
            consistent(final(self)@),
            final(self)@ == reconciled(observed(old(self)@, observation)),
            notices_match(observed(old(self)@, observation), notices.deep_view()),
    {
        let Observation { capabilities, applications, outputs, system_default } = observation;
        self.capabilities = capabilities;
        self.active_applications = sorted_unique(applications);
        self.outputs = sorted_unique(outputs);
        self.system_default = system_default;
        self.reconcile_failures()
    }

    /// Applies one user intention and returns newly started failure episodes.
    ///
    /// `SetRoute` is rejected before mutation unless application routing is
    /// available. `FollowSystemDefault` always succeeds because it only removes
    /// stored intent; it does not claim a platform routing operation succeeded.
    pub fn dispatch(&mut self, command: Command) -> (r: Result<Vec<Notice>, CommandError>)
        requires
            old(self).wf(),
        ensures
            final(self).wf(),
            consistent(final(self)@),
            accepts(old(self)@, command@) ==> r is Ok && final(self)@ == reconciled(
                with_intent(old(self)@, command@),
            ) && notices_match(with_intent(old(self)@, command@), r->Ok_0.deep_view()),
            !accepts(old(self)@, command@) ==> r == Err::<Vec<Notice>, CommandError>(
                CommandError::ApplicationRoutingUnavailable(
                    old(self)@.capabilities.application_routing,
                ),
            ) && final(self)@ == old(self)@,
    {
        match command {
            Command::SetRoute { application, output } => {
                match self.capabilities.application_routing {
                    CapabilityAvailability::Available => {},
                    other => {
                        return Err(CommandError::ApplicationRoutingUnavailable(other));
                    },
                }
                upsert(&mut self.routes, application, output);
            },
            Command::FollowSystemDefault { application } => {
                remove_key(&mut self.routes, &application);
                remove_key(&mut self.failure_episodes, &application);
            },
        }
        Ok(self.reconcile_failures())
    }

    /// Returns an owned snapshot independent of future engine mutations.
    pub fn snapshot(&self) -> (s: Snapshot)
        requires
            self.wf(),
        ensures
            snapshot_match(self@, s),
    {
        let ghost v = self@;
        let inactive = self.inactive_configured();
        let mut applications = self.rows_for(&self.active_applications);
        let mut rest = self.rows_for(&inactive);
        let ghost first = applications@;
        let ghost second = rest@;
        let alen = applications.len();
        applications.append(&mut rest);
        proof {
            let all = applications@;
            assert(all =~= first + second);
            assert forall|k: int| 0 <= k < alen implies #[trigger] all[k] == first[k] by {}
            assert forall|k: int| alen <= k < all.len() implies #[trigger] all[k] == second[k - alen] by {}
            assert forall|k: int| 0 <= k < alen implies v.active.contains(#[trigger] first[k]@.id) by {
                assert(self.active_applications@[k].key() == first[k]@.id);
            }
            assert forall|k: int| 0 <= k < second.len() implies !v.active.contains(#[trigger] second[k]@.id) by {
                assert(key_set(inactive@).contains(inactive@[k].key()));
            }
            assert forall|p: int, q: int| 0 <= p < q < all.len() implies row_before(
                #[trigger] all[p]@,
                #[trigger] all[q]@,
            ) by {
                if q < alen {
                    assert(lex_lt(self.active_applications@[p].key(), self.active_applications@[q].key()));
                } else if p >= alen {
                    assert(lex_lt(inactive@[p - alen].key(), inactive@[q - alen].key()));
                } else {
                    assert(v.active.contains(first[p]@.id));
                    assert(!v.active.contains(second[q - alen]@.id));
                }
            }
            assert forall|k: int| 0 <= k < all.len() implies #[trigger] all[k]@ == app_snapshot(
                v,
                all[k]@.id,
            ) by {
                if k < alen {
                    assert(all[k] == first[k]);
                } else {
                    assert(all[k] == second[k - alen]);
                }
            }
            assert forall|a: Seq<char>|
                (v.active.contains(a) || v.routes.contains_key(a)) <==> exists|i: int|
                    0 <= i < all.len() && #[trigger] all[i]@.id == a by {
                if v.active.contains(a) {
                    let j = choose|j: int|
                        0 <= j < self.active_applications@.len()
                            && #[trigger] self.active_applications@[j].key() == a;
                    assert(all[j]@.id == a);
                } else if v.routes.contains_key(a) {
                    assert(key_set(inactive@).contains(a));
                    let j = choose|j: int| 0 <= j < inactive@.len() && #[trigger] inactive@[j].key() == a;
                    assert(all[alen + j] == second[j]);
                    assert(all[alen + j]@.id == a);
                }
                if exists|i: int| 0 <= i < all.len() && #[trigger] all[i]@.id == a {
                    let i = choose|i: int| 0 <= i < all.len() && #[trigger] all[i]@.id == a;
                    if i < alen {
                        assert(self.active_applications@[i].key() == a);
                        assert(key_set(self.active_applications@).contains(a));
                    } else {
                        assert(inactive@[i - alen].key() == a);
                        assert(key_set(inactive@).contains(a));
                    }
                }
            }
        }
        let olen = self.outputs.len();
        let mut outputs: Vec<OutputId> = Vec::new();
        let mut o: usize = 0;
        while o < olen
            invariant
                olen == self.outputs@.len(),
                o <= olen,
                outputs@.len() == o,
                forall|k: int| 0 <= k < o ==> (#[trigger] outputs@[k])@ == self.outputs@[k]@,
            decreases olen - o,
        {
            outputs.push(self.outputs[o].duplicate());
            o = o + 1;
        }
        assert(keys_sorted(outputs@)) by {
            assert forall|p: int, q: int| 0 <= p < q < outputs@.len() implies lex_lt(
                #[trigger] outputs@[p].key(),
                #[trigger] outputs@[q].key(),
            ) by {
                assert(lex_lt(self.outputs@[p].key(), self.outputs@[q].key()));
            }
        }
        assert(key_set(outputs@) =~= key_set(self.outputs@)) by {
            assert forall|k: Seq<char>| key_set(outputs@).contains(k) implies key_set(
                self.outputs@,
            ).contains(k) by {
                let j = choose|j: int| 0 <= j < outputs@.len() && #[trigger] outputs@[j].key() == k;
                assert(self.outputs@[j].key() == k);
            }
            assert forall|k: Seq<char>| key_set(self.outputs@).contains(k) implies key_set(
                outputs@,
            ).contains(k) by {
                let j = choose|j: int| 0 <= j < self.outputs@.len() && #[trigger] self.outputs@[j].key() == k;
                assert(outputs@[j].key() == k);
            }
        }
        let system_default = match &self.system_default {
            Some(o) => Some(o.duplicate()),
            None => None,
        };
        Snapshot { capabilities: self.capabilities, applications, outputs, system_default }
    }

    /// The configured applications absent from the latest observation, in order.
    fn inactive_configured(&self) -> (ids: Vec<ApplicationId>)
        requires
            self.wf(),
        ensures
            keys_sorted(ids@),
            forall|a: Seq<char>|
                key_set(ids@).contains(a) <==> (self@.routes.contains_key(a) && !self@.active.contains(a)),
    {
        let rlen = self.routes.len();
        let mut ids: Vec<ApplicationId> = Vec::new();
        let mut r: usize = 0;
        while r < rlen
            invariant
                self.wf(),
                rlen == self.routes@.len(),
                r <= rlen,
                keys_sorted(ids@),
                forall|k: int| 0 <= k < ids@.len() ==> in_prefix(self.routes@, r as int, #[trigger] ids@[k].key()),
                forall|a: Seq<char>|
                    #[trigger] key_set(ids@).contains(a) <==> (in_prefix(self.routes@, r as int, a)
                        && !key_set(self.active_applications@).contains(a)),
            decreases rlen - r,
        {
            let ghost before = ids@;
            let key = &self.routes[r].0;
            assert(self.routes@[r as int].key() == key@);
            assert forall|b: Seq<char>| in_prefix(self.routes@, r + 1, b) <==> (in_prefix(
                self.routes@,
                r as int,
                b,
            ) || b == key@) by {
                if in_prefix(self.routes@, r + 1, b) && !in_prefix(self.routes@, r as int, b) {
                    let j = choose|j: int| 0 <= j < r + 1 && #[trigger] self.routes@[j].key() == b;
                    assert(j == r);
                }
            }
            if find_key(&self.active_applications, key.as_str()).is_none() {
                ids.push(key.duplicate());
                proof {
                    let last = ids@.len() - 1;
                    assert(ids@ == before.push(ids@[last]));
                    assert forall|p: int, q: int| 0 <= p < q < ids@.len() implies lex_lt(
                        #[trigger] ids@[p].key(),
                        #[trigger] ids@[q].key(),
                    ) by {
                        assert(ids@[p] == before[p]);
                        if q < last {
                            assert(ids@[q] == before[q]);
                        } else {
                            let j = choose|j: int| 0 <= j < r && #[trigger] self.routes@[j].key() == before[p].key();
                            assert(lex_lt(self.routes@[j].key(), self.routes@[r as int].key()));
                        }
                    }
                    assert forall|k: int| 0 <= k < ids@.len() implies in_prefix(
                        self.routes@,
                        r + 1,
                        #[trigger] ids@[k].key(),
                    ) by {
                        if k < last {
                            assert(ids@[k] == before[k]);
                            assert(in_prefix(self.routes@, r as int, before[k].key()));
                        }
                    }
                    assert forall|a: Seq<char>|
                        #[trigger] key_set(ids@).contains(a) <==> (in_prefix(self.routes@, r + 1, a)
                            && !key_set(self.active_applications@).contains(a)) by {
                        if key_set(ids@).contains(a) {
                            let k = choose|k: int| 0 <= k < ids@.len() && #[trigger] ids@[k].key() == a;
                            if k < last {
                                assert(before[k].key() == a);
                                assert(key_set(before).contains(a));
                            }
                        }
                        if in_prefix(self.routes@, r + 1, a) && !key_set(self.active_applications@).contains(a) {
                            if a == key@ {
                                assert(ids@[last].key() == a);
                            } else {
                                assert(key_set(before).contains(a));
                                let k = choose|k: int| 0 <= k < before.len() && #[trigger] before[k].key() == a;
                                assert(ids@[k].key() == a);
                            }
                        }
                    }
                }
            } else {
                proof {
                    assert forall|k: int| 0 <= k < ids@.len() implies in_prefix(
                        self.routes@,
                        r + 1,
                        #[trigger] ids@[k].key(),
                    ) by {
                        assert(in_prefix(self.routes@, r as int, ids@[k].key()));
                    }
                }
            }
            r = r + 1;
        }
        proof {
            lemma_pair_map_dom(self.routes@);
            assert forall|a: Seq<char>| in_prefix(self.routes@, rlen as int, a) <==> self@.routes.contains_key(a) by {
                if self@.routes.contains_key(a) {
                    assert(key_set(self.routes@).contains(a));
                    let j = choose|j: int| 0 <= j < self.routes@.len() && #[trigger] self.routes@[j].key() == a;
                    assert(in_prefix(self.routes@, rlen as int, a));
                }
                if in_prefix(self.routes@, rlen as int, a) {
                    let j = choose|j: int| 0 <= j < rlen && #[trigger] self.routes@[j].key() == a;
                    assert(key_set(self.routes@).contains(a));
                }
            }
        }
        ids
    }

    /// The snapshot rows of `ids`, in the same order.
    fn rows_for(&self, ids: &Vec<ApplicationId>) -> (rows: Vec<ApplicationSnapshot>)
        requires
            self.wf(),
        ensures
            rows@.len() == ids@.len(),
            forall|k: int| 0 <= k < ids@.len() ==> (#[trigger] rows@[k])@ == app_snapshot(self@, ids@[k]@),
    {
        let n = ids.len();
        let mut rows: Vec<ApplicationSnapshot> = Vec::new();
        let mut i: usize = 0;
        while i < n
            invariant
                self.wf(),
                n == ids@.len(),
                i <= n,
                rows@.len() == i,
                forall|k: int| 0 <= k < i ==> (#[trigger] rows@[k])@ == app_snapshot(self@, ids@[k]@),
            decreases n - i,
        {
            let row = self.application_snapshot(ids[i].duplicate());
            rows.push(row);
            i = i + 1;
        }
        rows
    }

    /// The snapshot row of one application.
    pub fn application_snapshot(&self, id: ApplicationId) -> (row: ApplicationSnapshot)
        requires
            self.wf(),
        ensures
            row@ == app_snapshot(self@, id@),
    {
        let active = find_key(&self.active_applications, id.as_str()).is_some();
        let found = find_key(&self.routes, id.as_str());
        proof {
            lemma_pair_map_dom(self.routes@);
            if let Some(i) = found {
                lemma_pair_map_at(self.routes@, i as int);
            }
        }
        let desired_output = match found {
            Some(i) => Some(self.routes[i].1.duplicate()),
            None => None,
        };
        if !active {
            return ApplicationSnapshot {
                id,
                active: false,
                desired_output,
                effective_output: None,
                route_status: RouteStatus::Inactive,
            };
        }
        if found.is_none() {
            let effective_output = match &self.system_default {
                Some(o) => Some(o.duplicate()),
                None => None,
            };
            return ApplicationSnapshot {
                id,
                active: true,
                desired_output,
                effective_output,
                route_status: RouteStatus::FollowingSystemDefault,
            };
        }
        let (effective_output, failure) = self.effective_route(&id);
        let route_status = match failure {
            Some(f) => RouteStatus::Fallback(f),
            None => RouteStatus::Applied,
        };
        ApplicationSnapshot { id, active: true, desired_output, effective_output, route_status }
    }

    /// The output selected for a configured application, and why it falls
    /// back to the system default if it does.
    pub fn effective_route(&self, application: &ApplicationId) -> (r: (
        Option<OutputId>,
        Option<RouteFailure>,
    ))
        requires
            self.wf(),
            self@.routes.contains_key(application@),
        ensures
            option_view(r.0) == effective_of(self@, application@).0,
            match r.1 {
                Some(f) => effective_of(self@, application@).1 == Some(f@),
                None => effective_of(self@, application@).1 is None,
            },
    {
        proof {
            lemma_pair_map_dom(self.routes@);
        }
        let i = match find_key(&self.routes, application.as_str()) {
            Some(i) => i,
            None => {
                proof {
                    assert(false);
                }
                0
            },
        };
        proof {
            lemma_pair_map_at(self.routes@, i as int);
        }
        let desired = &self.routes[i].1;
        let failure = self.failure_for_output(desired);
        match failure {
            Some(f) => {
                let effective = match &self.system_default {
                    Some(o) => Some(o.duplicate()),
                    None => None,
                };
                (effective, Some(f))
            },
            None => (Some(desired.duplicate()), None),
        }
    }

    fn failure_for_output(&self, desired: &OutputId) -> (r: Option<RouteFailure>)
        requires
            self.sorted(),
        ensures
            match r {
                Some(f) => failure_for(self@.capabilities, self@.outputs, desired@) == Some(f@),
                None => failure_for(self@.capabilities, self@.outputs, desired@) is None,
            },
    {
        match self.capabilities.application_routing {
            CapabilityAvailability::Available => {
                if find_key(&self.outputs, desired.as_str()).is_some() {
                    None
                } else {
                    Some(RouteFailure::DesiredOutputUnavailable(desired.duplicate()))
                }
            },
            CapabilityAvailability::Unavailable(reason) => Some(
                RouteFailure::RoutingUnavailable(reason),
            ),
            CapabilityAvailability::PermissionRequired => Some(RouteFailure::PermissionRequired),
        }
    }

    fn reconcile_failures(&mut self) -> (notices: Vec<Notice>)
        requires
            keys_sorted(old(self).active_applications@),
            keys_sorted(old(self).outputs@),
            keys_sorted(old(self).routes@),
            keys_sorted(old(self).failure_episodes@),
        ensures
            final(self).wf(),
            final(self)@ == reconciled(old(self)@),
            notices_match(old(self)@, notices.deep_view()),
    {
        let ghost v = self@;
        let n = self.active_applications.len();
        let mut current: Vec<(ApplicationId, RouteFailure)> = Vec::new();
        let mut notices: Vec<Notice> = Vec::new();
        let mut i: usize = 0;
        proof {
            lemma_pair_map_dom(self.routes@);
            lemma_pair_map_dom(self.failure_episodes@);
        }
        while i < n
            invariant
                self.sorted(),
                v == self@,
                n == self.active_applications@.len(),
                i <= n,
                key_set(self.routes@) == v.routes.dom(),
                key_set(self.failure_episodes@) == v.failures.dom(),
                keys_sorted(current@),
                forall|k: int|
                    0 <= k < current@.len() ==> in_prefix(
                        self.active_applications@,
                        i as int,
                        (#[trigger] current@[k]).0@,
                    ),
                forall|a: Seq<char>|
                    #[trigger] pair_map(current@).contains_key(a) <==> (in_prefix(
                        self.active_applications@,
                        i as int,
                        a,
                    ) && route_failure(v, a) is Some),
                forall|a: Seq<char>|
                    #[trigger] pair_map(current@).contains_key(a) ==> pair_map(current@)[a]
                        == route_failure(v, a)->0,
                forall|k: int, j: int|
                    0 <= k < j < notices@.len() ==> lex_lt(
                        (#[trigger] notices@[k])@.application,
                        (#[trigger] notices@[j])@.application,
                    ),
                forall|k: int|
                    0 <= k < notices@.len() ==> in_prefix(
                        self.active_applications@,
                        i as int,
                        (#[trigger] notices@[k])@.application,
                    ),
                forall|k: int|
                    0 <= k < notices@.len() ==> starts_episode(v, (#[trigger] notices@[k])@.application)
                        && Some(notices@[k]@.reason) == route_failure(v, notices@[k]@.application),
                forall|a: Seq<char>|
                    starts_episode(v, a) && in_prefix(self.active_applications@, i as int, a)
                        ==> exists|k: int| 0 <= k < notices@.len() && #[trigger] notices@[k]@.application == a,
            decreases n - i,
        {
            let ghost before_current = current@;
            let ghost before_notices = notices@;
            let app = &self.active_applications[i];
            let ghost a = app@;
            assert(self.active_applications@[i as int].key() == a);
            assert(v.active.contains(a));
            let route = find_key(&self.routes, app.as_str());
            proof {
                if let Some(ri) = route {
                    lemma_pair_map_at(self.routes@, ri as int);
                }
            }
            let mut failure: Option<RouteFailure> = None;
            if let Some(ri) = route {
                failure = self.failure_for_output(&self.routes[ri].1);
            }
            assert(match failure {
                Some(f) => route_failure(v, a) == Some(f@),
                None => route_failure(v, a) is None,
            });
            // facts about keys strictly before `a`
            assert forall|b: Seq<char>| in_prefix(self.active_applications@, i as int, b) implies lex_lt(
                b,
                a,
            ) by {
                let j = choose|j: int| 0 <= j < i && #[trigger] self.active_applications@[j].key() == b;
                assert(lex_lt(
                    self.active_applications@[j].key(),
                    self.active_applications@[i as int].key(),
                ));
            }
            assert forall|b: Seq<char>| in_prefix(self.active_applications@, i + 1, b) <==> (in_prefix(
                self.active_applications@,
                i as int,
                b,
            ) || b == a) by {
                if in_prefix(self.active_applications@, i + 1, b) && !in_prefix(
                    self.active_applications@,
                    i as int,
                    b,
                ) {
                    let j = choose|j: int| 0 <= j < i + 1 && #[trigger] self.active_applications@[j].key() == b;
                    assert(j == i);
                }
            }
            assert(!in_prefix(self.active_applications@, i as int, a)) by {
                if in_prefix(self.active_applications@, i as int, a) {
                    lemma_lex_irreflexive(a);
                }
            }
            match failure {
                Some(f) => {
                    let previous = find_key(&self.failure_episodes, app.as_str());
                    proof {
                        if let Some(pi) = previous {
                            lemma_pair_map_at(self.failure_episodes@, pi as int);
                        }
                    }
                    let same = match previous {
                        Some(pi) => self.failure_episodes[pi].1.same_as(&f),
                        None => false,
                    };
                    assert(same == (v.failures.contains_key(a) && v.failures[a] == f@));
                    if !same {
                        notices.push(Notice::RouteFailed { application: app.duplicate(), reason: f.duplicate() });
                        proof {
                            let last = notices@.len() - 1;
                            assert(notices@[last]@.application == a);
                            assert forall|k: int, j: int| 0 <= k < j < notices@.len() implies lex_lt(
                                (#[trigger] notices@[k])@.application,
                                (#[trigger] notices@[j])@.application,
                            ) by {
                                assert(notices@[k] == before_notices[k]);
                                if j < last {
                                    assert(notices@[j] == before_notices[j]);
                                }
                            }
                            assert forall|k: int| 0 <= k < notices@.len() implies in_prefix(
                                self.active_applications@,
                                i + 1,
                                (#[trigger] notices@[k])@.application,
                            ) by {
                                if k < last {
                                    assert(notices@[k] == before_notices[k]);
                                }
                            }
                            assert forall|b: Seq<char>|
                                starts_episode(v, b) && in_prefix(self.active_applications@, i + 1, b)
                                implies exists|k: int| 0 <= k < notices@.len() && #[trigger] notices@[k]@.application == b by {
                                if b == a {
                                    assert(notices@[last]@.application == b);
                                } else {
                                    let k = choose|k: int| 0 <= k < before_notices.len() && #[trigger] before_notices[k]@.application == b;
                                    assert(notices@[k] == before_notices[k]);
                                }
                            }
                        }
                    } else {
                        proof {
                            assert forall|k: int| 0 <= k < notices@.len() implies in_prefix(
                                self.active_applications@,
                                i + 1,
                                (#[trigger] notices@[k])@.application,
                            ) by {
                                assert(in_prefix(self.active_applications@, i as int, notices@[k]@.application));
                            }
                        }
                    }
                    let ghost fv = f@;
                    current.push((app.duplicate(), f));
                    proof {
                        let last = current@.len() - 1;
                        assert(current@ == before_current.push(current@[last]));
                        assert(keys_sorted(current@)) by {
                            assert forall|k: int, j: int| 0 <= k < j < current@.len() implies lex_lt(
                                #[trigger] current@[k].key(),
                                #[trigger] current@[j].key(),
                            ) by {
                                assert(current@[k] == before_current[k]);
                                if j < last {
                                    assert(current@[j] == before_current[j]);
                                } else {
                                    assert(in_prefix(self.active_applications@, i as int, before_current[k].0@));
                                }
                            }
                        }
                        assert forall|k: int| 0 <= k < current@.len() implies in_prefix(
                            self.active_applications@,
                            i + 1,
                            (#[trigger] current@[k]).0@,
                        ) by {
                            if k < last {
                                assert(current@[k] == before_current[k]);
                            } else {
                                assert(self.active_applications@[i as int].key() == current@[k].0@);
                            }
                        }
                        assert forall|b: Seq<char>| #[trigger] pair_map(current@).contains_key(b) <==> (
                        in_prefix(self.active_applications@, i + 1, b) && route_failure(v, b) is Some) by {
                            if pair_map(current@).contains_key(b) {
                                let k = choose|k: int| 0 <= k < current@.len() && #[trigger] current@[k].0@ == b;
                                if k < last {
                                    assert(before_current[k].0@ == b);
                                    assert(pair_map(before_current).contains_key(b));
                                }
                            }
                            if in_prefix(self.active_applications@, i + 1, b) && route_failure(v, b) is Some {
                                if b == a {
                                    assert(current@[last].0@ == b);
                                } else {
                                    assert(pair_map(before_current).contains_key(b));
                                    let k = choose|k: int| 0 <= k < before_current.len() && #[trigger] before_current[k].0@ == b;
                                    assert(current@[k].0@ == b);
                                }
                            }
                        }
                        assert forall|b: Seq<char>| #[trigger] pair_map(current@).contains_key(b) implies pair_map(
                            current@,
                        )[b] == route_failure(v, b)->0 by {
                            let k = choose|k: int| 0 <= k < current@.len() && #[trigger] current@[k].0@ == b;
                            lemma_pair_map_at(current@, k);
                            if k < last {
                                assert(current@[k] == before_current[k]);
                                lemma_pair_map_at(before_current, k);
                            }
                        }
                    }
                },
                None => {
                    proof {
                        assert forall|b: Seq<char>| #[trigger] pair_map(current@).contains_key(b) <==> (
                        in_prefix(self.active_applications@, i + 1, b) && route_failure(v, b) is Some) by {
                        }
                        assert forall|k: int| 0 <= k < current@.len() implies in_prefix(
                            self.active_applications@,
                            i + 1,
                            (#[trigger] current@[k]).0@,
                        ) by {
                            assert(in_prefix(self.active_applications@, i as int, current@[k].0@));
                        }
                        assert forall|k: int| 0 <= k < notices@.len() implies in_prefix(
                            self.active_applications@,
                            i + 1,
                            (#[trigger] notices@[k])@.application,
                        ) by {
                            assert(in_prefix(self.active_applications@, i as int, notices@[k]@.application));
                        }
                    }
                },
            }
            i = i + 1;
        }
        proof {
            assert forall|a: Seq<char>| in_prefix(self.active_applications@, n as int, a) <==> v.active.contains(a) by {
                if v.active.contains(a) {
                    let j = choose|j: int| 0 <= j < self.active_applications@.len() && #[trigger] self.active_applications@[j].key() == a;
                    assert(in_prefix(self.active_applications@, n as int, a));
                }
            }
            assert(pair_map(current@) =~= current_failures(v));
            let ns = notices.deep_view();
            assert(ns.len() == notices@.len());
            assert forall|k: int| 0 <= k < ns.len() implies #[trigger] ns[k] == notices@[k]@ by {}
            assert forall|a: Seq<char>| starts_episode(v, a) implies exists|k: int|
                0 <= k < ns.len() && #[trigger] ns[k].application == a by {
                assert(in_prefix(self.active_applications@, n as int, a));
                let k = choose|k: int| 0 <= k < notices@.len() && #[trigger] notices@[k]@.application == a;
                assert(ns[k].application == a);
            }
            assert forall|k: int, j: int| 0 <= k < j < ns.len() implies lex_lt(
                #[trigger] ns[k].application,
                #[trigger] ns[j].application,
            ) by {
                assert(ns[k] == notices@[k]@);
                assert(ns[j] == notices@[j]@);
            }
            assert forall|k: int| 0 <= k < ns.len() implies starts_episode(v, #[trigger] ns[k].application)
                && Some(ns[k].reason) == route_failure(v, ns[k].application) by {
                assert(ns[k] == notices@[k]@);
            }
        }
        self.failure_episodes = current;
        proof {
            lemma_reconciled_consistent(v);
        }
        notices
    }
}

} // verus!
