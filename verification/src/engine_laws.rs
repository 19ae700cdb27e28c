//! Properties that hold across calls of the routing engine.
//!
//! Each law is stated over the engine's mathematical state and the spec
//! functions that the contracts of `observe`, `dispatch` and `snapshot` use.

use vstd::prelude::*;

use crate::engine::{
    accepts, app_snapshot, consistent, current_failures, lemma_reconciled_consistent,
    notices_match, observed, reconciled, route_failure, starts_episode, with_intent, EngineView,
};
use crate::keyed::key_set;
use crate::model::{
    option_view, CapabilityAvailability, CommandView, NoticeView, Observation, RouteFailureView,
    RouteStatusView,
};
use crate::text::{lemma_lex_irreflexive, lex_lt};

verus! {

/// Observations that report the same capabilities, sets of applications and
/// outputs, and system default are equivalent.
pub open spec fn equivalent_observations(o1: Observation, o2: Observation) -> bool {
    &&& o1.capabilities == o2.capabilities
    &&& key_set(o1.applications@) == key_set(o2.applications@)
    &&& key_set(o1.outputs@) == key_set(o2.outputs@)
    &&& option_view(o1.system_default) == option_view(o2.system_default)
}

/// Repeating an equivalent observation is idempotent and emits no notice:
/// the state after the second observation equals the state after the first,
/// and the notices of the second observation are empty.
pub proof fn law_repeated_observation_is_quiet(
    v: EngineView,
    o1: Observation,
    o2: Observation,
    second: Seq<NoticeView>,
)
    requires
        equivalent_observations(o1, o2),
        notices_match(observed(reconciled(observed(v, o1)), o2), second),
    ensures
        reconciled(observed(reconciled(observed(v, o1)), o2)) == reconciled(observed(v, o1)),
        second.len() == 0,
{
    let w = reconciled(observed(v, o1));
    let x = observed(w, o2);
    assert(x.active == w.active && x.outputs == w.outputs && x.routes == w.routes);
    assert(x.capabilities == w.capabilities && x.system_default == w.system_default);
    assert forall|a: Seq<char>| route_failure(x, a) == route_failure(observed(v, o1), a) by {}
    assert(current_failures(x) =~= w.failures);
    assert(reconciled(x) =~= w);
    if second.len() > 0 {
        let a = second[0].application;
        assert(starts_episode(x, a));
        assert(w.failures.contains_key(a));
    }
}

/// Observations never change stored routing intent.
pub proof fn law_observation_keeps_intent(v: EngineView, o: Observation)
    ensures
        reconciled(observed(v, o)).routes == v.routes,
{
}

/// After reconciliation no application is in an unannounced episode: a
/// failure that persists is not announced again.
pub proof fn law_no_duplicate_notice(v: EngineView, a: Seq<char>)
    ensures
        !starts_episode(reconciled(v), a),
{
    let w = reconciled(v);
    assert forall|b: Seq<char>| route_failure(w, b) == route_failure(v, b) by {}
}

/// When the saved route of an application can be applied again, its episode
/// ends, so a later failure is announced as a new episode.
pub proof fn law_recovery_ends_episode(v: EngineView, a: Seq<char>)
    requires
        route_failure(v, a) is None,
    ensures
        !reconciled(v).failures.contains_key(a),
        route_failure(reconciled(v), a) is None,
{
    assert forall|b: Seq<char>| route_failure(reconciled(v), b) == route_failure(v, b) by {}
}

/// An active application whose saved route cannot be applied enters an
/// episode that is announced, unless that very episode was already recorded.
pub proof fn law_new_failure_is_announced(v: EngineView, a: Seq<char>, ns: Seq<NoticeView>)
    requires
        notices_match(v, ns),
        v.active.contains(a),
        route_failure(v, a) is Some,
        !v.failures.contains_key(a),
    ensures
        exists|i: int| 0 <= i < ns.len() && ns[i].application == a && Some(ns[i].reason) == route_failure(v, a),
{
    assert(starts_episode(v, a));
    let i = choose|i: int| 0 <= i < ns.len() && #[trigger] ns[i].application == a;
    assert(starts_episode(v, ns[i].application));
}

/// A missing desired output falls back to the system default without
/// forgetting the stored intent.
pub proof fn law_fallback_keeps_intent(v: EngineView, a: Seq<char>)
    requires
        v.active.contains(a),
        v.routes.contains_key(a),
        route_failure(v, a) is Some,
    ensures
        app_snapshot(v, a).desired_output == Some(v.routes[a]),
        app_snapshot(v, a).effective_output == v.system_default,
        app_snapshot(v, a).route_status == RouteStatusView::Fallback(route_failure(v, a)->0),
{
}

/// The exact desired output is used whenever it is present and routing is
/// available.
pub proof fn law_exact_output_is_applied(v: EngineView, a: Seq<char>)
    requires
        v.active.contains(a),
        v.routes.contains_key(a),
        v.outputs.contains(v.routes[a]),
        v.capabilities.application_routing == CapabilityAvailability::Available,
    ensures
        app_snapshot(v, a).desired_output == Some(v.routes[a]),
        app_snapshot(v, a).effective_output == Some(v.routes[a]),
        app_snapshot(v, a).route_status == RouteStatusView::Applied,
{
}

/// A configured application keeps its stored route while it is inactive.
pub proof fn law_inactive_application_is_retained(v: EngineView, a: Seq<char>)
    requires
        !v.active.contains(a),
        v.routes.contains_key(a),
    ensures
        app_snapshot(v, a).desired_output == Some(v.routes[a]),
        app_snapshot(v, a).effective_output is None,
        app_snapshot(v, a).route_status == RouteStatusView::Inactive,
{
}

/// Following the system default always succeeds and clears the stored route
/// and any recorded episode of that application.
pub proof fn law_follow_default_clears_route(v: EngineView, a: Seq<char>)
    ensures
        accepts(v, CommandView::FollowSystemDefault { application: a }),
        !reconciled(with_intent(v, CommandView::FollowSystemDefault { application: a })).routes.contains_key(a),
        !reconciled(with_intent(v, CommandView::FollowSystemDefault { application: a })).failures.contains_key(a),
{
}

/// An active application that follows the system default uses whatever the
/// platform reports as the default.
pub proof fn law_following_default_tracks_system_default(v: EngineView, a: Seq<char>)
    requires
        v.active.contains(a),
        !v.routes.contains_key(a),
    ensures
        app_snapshot(v, a).desired_output is None,
        app_snapshot(v, a).effective_output == v.system_default,
        app_snapshot(v, a).route_status == RouteStatusView::FollowingSystemDefault,
{
}

/// A new route is accepted exactly when application routing is available,
/// and once accepted it is the stored intent of its application.
pub proof fn law_set_route_stores_intent(v: EngineView, a: Seq<char>, o: Seq<char>)
    ensures
        accepts(v, CommandView::SetRoute { application: a, output: o }) <==> v.capabilities.application_routing
            == CapabilityAvailability::Available,
        reconciled(with_intent(v, CommandView::SetRoute { application: a, output: o })).routes[a] == o,
{
}

/// Following the system default is quiet in every state the engine reaches:
/// it announces nothing, the application then follows the system default if
/// it is active (and is otherwise no longer listed), and every other
/// application's snapshot row stays as it was.
pub proof fn law_follow_default_is_quiet(v: EngineView, a: Seq<char>, ns: Seq<NoticeView>)
    requires
        consistent(v),
        notices_match(with_intent(v, CommandView::FollowSystemDefault { application: a }), ns),
    ensures
        ns.len() == 0,
        ({
            let w = reconciled(with_intent(v, CommandView::FollowSystemDefault { application: a }));
            &&& app_snapshot(w, a).desired_output is None
            &&& v.active.contains(a) ==> app_snapshot(w, a).effective_output == v.system_default
                && app_snapshot(w, a).route_status == RouteStatusView::FollowingSystemDefault
            &&& !v.active.contains(a) ==> !w.active.contains(a) && !w.routes.contains_key(a)
            &&& forall|b: Seq<char>| b != a ==> #[trigger] app_snapshot(w, b) == app_snapshot(v, b)
        }),
{
    let x = with_intent(v, CommandView::FollowSystemDefault { application: a });
    let w = reconciled(x);
    assert forall|b: Seq<char>| b != a implies route_failure(x, b) == route_failure(v, b) by {}
    if ns.len() > 0 {
        let b = ns[0].application;
        assert(starts_episode(x, b));
        assert(b != a);
        assert(current_failures(v).contains_key(b));
    }
    assert forall|b: Seq<char>| b != a implies #[trigger] app_snapshot(w, b) == app_snapshot(v, b) by {
        assert(route_failure(w, b) == route_failure(v, b));
    }
}

/// The notices of an observation, from any state the engine reaches: in order
/// of identity, one for each newly observed application with a saved route
/// that cannot be applied, unless it was active before and its saved route
/// failed there for the very same reason; each carries that reason.
pub proof fn law_observation_notices(v: EngineView, o: Observation, ns: Seq<NoticeView>)
    requires
        consistent(v),
        notices_match(observed(v, o), ns),
    ensures
        forall|i: int, j: int|
            0 <= i < j < ns.len() ==> lex_lt(
                #[trigger] ns[i].application,
                #[trigger] ns[j].application,
            ),
        forall|i: int|
            0 <= i < ns.len() ==> Some(#[trigger] ns[i].reason) == route_failure(
                observed(v, o),
                ns[i].application,
            ),
        forall|a: Seq<char>|
            (exists|i: int| 0 <= i < ns.len() && #[trigger] ns[i].application == a) <==> {
                &&& key_set(o.applications@).contains(a)
                &&& route_failure(observed(v, o), a) is Some
                &&& !(v.active.contains(a) && route_failure(v, a) == route_failure(observed(v, o), a))
            },
{
    let x = observed(v, o);
    assert forall|i: int| 0 <= i < ns.len() implies Some(#[trigger] ns[i].reason) == route_failure(
        x,
        ns[i].application,
    ) by {
        assert(starts_episode(x, ns[i].application));
    }
    assert forall|a: Seq<char>|
        (exists|i: int| 0 <= i < ns.len() && #[trigger] ns[i].application == a) <==> {
            &&& key_set(o.applications@).contains(a)
            &&& route_failure(x, a) is Some
            &&& !(v.active.contains(a) && route_failure(v, a) == route_failure(x, a))
        } by {
        if exists|i: int| 0 <= i < ns.len() && #[trigger] ns[i].application == a {
            let i = choose|i: int| 0 <= i < ns.len() && #[trigger] ns[i].application == a;
            assert(starts_episode(x, ns[i].application));
        }
        if key_set(o.applications@).contains(a) && route_failure(x, a) is Some && !(v.active.contains(
            a,
        ) && route_failure(v, a) == route_failure(x, a)) {
            assert(starts_episode(x, a));
        }
    }
}

/// In any state the engine reaches, with application routing available, a
/// route of an active application to an output that is not observed is
/// announced once: the notice names that output, unless the same route was
/// already saved, in which case nothing is announced.
pub proof fn law_set_route_to_missing_output(
    v: EngineView,
    a: Seq<char>,
    d: Seq<char>,
    ns: Seq<NoticeView>,
)
    requires
        consistent(v),
        v.capabilities.application_routing == CapabilityAvailability::Available,
        v.active.contains(a),
        !v.outputs.contains(d),
        notices_match(with_intent(v, CommandView::SetRoute { application: a, output: d }), ns),
    ensures
        v.routes.contains_key(a) && v.routes[a] == d ==> ns.len() == 0,
        !(v.routes.contains_key(a) && v.routes[a] == d) ==> ns == seq![
            NoticeView { application: a, reason: RouteFailureView::DesiredOutputUnavailable(d) },
        ],
{
    let x = with_intent(v, CommandView::SetRoute { application: a, output: d });
    assert forall|b: Seq<char>| b != a implies route_failure(x, b) == route_failure(v, b) by {}
    assert forall|i: int| 0 <= i < ns.len() implies #[trigger] ns[i].application == a by {
        let b = ns[i].application;
        assert(starts_episode(x, b));
        if b != a {
            assert(current_failures(v).contains_key(b));
        }
    }
    if v.routes.contains_key(a) && v.routes[a] == d {
        assert(current_failures(v).contains_key(a));
        if ns.len() > 0 {
            assert(starts_episode(x, ns[0].application));
        }
    } else {
        assert(starts_episode(x, a));
        let i = choose|i: int| 0 <= i < ns.len() && #[trigger] ns[i].application == a;
        if ns.len() > 1 {
            assert(ns[0].application == a && ns[1].application == a);
            lemma_lex_irreflexive(a);
        }
        assert(ns.len() == 1);
        assert(ns[0].application == a);
        assert(starts_episode(x, ns[0].application));
        assert(ns =~= seq![
            NoticeView { application: a, reason: RouteFailureView::DesiredOutputUnavailable(d) },
        ]);
    }
}

/// After following the system default, setting the same missing route again
/// is announced again.
pub proof fn law_set_route_after_follow_default_is_announced(
    v: EngineView,
    a: Seq<char>,
    d: Seq<char>,
    ns: Seq<NoticeView>,
)
    requires
        v.capabilities.application_routing == CapabilityAvailability::Available,
        v.active.contains(a),
        !v.outputs.contains(d),
        notices_match(
            with_intent(
                reconciled(with_intent(v, CommandView::FollowSystemDefault { application: a })),
                CommandView::SetRoute { application: a, output: d },
            ),
            ns,
        ),
    ensures
        ns == seq![NoticeView { application: a, reason: RouteFailureView::DesiredOutputUnavailable(d) }],
{
    let w = reconciled(with_intent(v, CommandView::FollowSystemDefault { application: a }));
    lemma_reconciled_consistent(with_intent(v, CommandView::FollowSystemDefault { application: a }));
    law_set_route_to_missing_output(w, a, d, ns);
}

/// Why a saved route fails, by the platform's routing capability: with
/// routing available it fails exactly when its output is missing, naming
/// that output; when routing is unavailable it fails for that reason; when
/// permission is required it fails for want of permission. An active
/// application whose route fails uses the system default and shows the
/// failure as its fallback.
pub proof fn law_route_failure_by_capability(v: EngineView, a: Seq<char>)
    requires
        v.routes.contains_key(a),
    ensures
        v.capabilities.application_routing == CapabilityAvailability::Available ==> {
            &&& route_failure(v, a) is None <==> v.outputs.contains(v.routes[a])
            &&& route_failure(v, a) is Some ==> route_failure(v, a) == Some(
                RouteFailureView::DesiredOutputUnavailable(v.routes[a]),
            )
        },
        v.capabilities.application_routing matches CapabilityAvailability::Unavailable(r)
            ==> route_failure(v, a) == Some(RouteFailureView::RoutingUnavailable(r)),
        v.capabilities.application_routing == CapabilityAvailability::PermissionRequired
            ==> route_failure(v, a) == Some(RouteFailureView::PermissionRequired),
        v.capabilities.application_routing != CapabilityAvailability::Available && v.active.contains(a)
            ==> {
            &&& app_snapshot(v, a).desired_output == Some(v.routes[a])
            &&& app_snapshot(v, a).effective_output == v.system_default
            &&& app_snapshot(v, a).route_status == RouteStatusView::Fallback(route_failure(v, a)->0)
        },
{
}

/// When an observation reports that routing became unavailable, every
/// observed application whose saved route applied before is announced with
/// that reason, in any state the engine reaches.
pub proof fn law_routing_loss_is_announced(
    v: EngineView,
    o: Observation,
    a: Seq<char>,
    r: crate::model::UnavailableReason,
    ns: Seq<NoticeView>,
)
    requires
        consistent(v),
        route_failure(v, a) is None,
        v.routes.contains_key(a),
        key_set(o.applications@).contains(a),
        o.capabilities.application_routing == CapabilityAvailability::Unavailable(r),
        notices_match(observed(v, o), ns),
    ensures
        exists|i: int|
            0 <= i < ns.len() && ns[i] == (NoticeView {
                application: a,
                reason: RouteFailureView::RoutingUnavailable(r),
            }),
{
    let x = observed(v, o);
    assert(route_failure(x, a) == Some(RouteFailureView::RoutingUnavailable(r)));
    assert(starts_episode(x, a));
    let i = choose|i: int| 0 <= i < ns.len() && #[trigger] ns[i].application == a;
    assert(starts_episode(x, ns[i].application));
    assert(ns[i] == (NoticeView { application: a, reason: RouteFailureView::RoutingUnavailable(r) }));
}

} // verus!
