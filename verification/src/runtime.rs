//! The application service that keeps one routing engine alive across
//! observations, and the recorded routes that outlive it.
//!
//! The user interface never owns routing intent. Windows calls and file
//! writes are made by the shell; each step here takes what they answered.

use vstd::prelude::*;

use crate::audio::{ScanStats, WindowsOutput};
use crate::engine::{EngineView, RouterEngine, accepts, observed, reconciled, with_intent};
use crate::identity::{ApplicationId, OutputId};
use crate::keyed::{StableKey, find_key, keys_sorted, lemma_pair_map_at, lemma_pair_map_dom, pair_map, upsert};
use crate::model::{Command, CommandView, Observation, availability_label};
use crate::popup::{PopupModel, RouteRequest, VolumeRequest};
use crate::route_store::RouteStore;
use crate::routing::{RoutingError, routing_error_text};
use crate::volume::{VolumeTargets, volume_targets};
use crate::audio::ascending;

verus! {

/// The engine after a command: applied and reconciled when accepted, else unchanged.
pub open spec fn after_command(e: EngineView, c: CommandView) -> EngineView {
    if accepts(e, c) {
        reconciled(with_intent(e, c))
    } else {
        e
    }
}

/// The command a route request asks for, once its identities are valid.
pub open spec fn requested_command(application: Seq<char>, output: Option<Seq<char>>) -> CommandView {
    match output {
        Some(o) => CommandView::SetRoute { application, output: o },
        None => CommandView::FollowSystemDefault { application },
    }
}

/// The application service: the engine, the recorded routes, and the
/// processes last seen for each application.
pub struct ApplicationRuntime {
    engine: RouterEngine,
    routes: RouteStore,
    observed_processes: Vec<(ApplicationId, Vec<u32>)>,
}

/// The processes one restoring pass has seen, by application.
pub struct RestorePass {
    current: Vec<(ApplicationId, Vec<u32>)>,
}

impl RestorePass {
    /// The processes seen so far, by application identity.
    pub closed spec fn seen(&self) -> Map<Seq<char>, Seq<u32>> {
        pair_map(self.current@)
    }

    /// The invariant: one entry per application, in identity order.
    pub closed spec fn wf(&self) -> bool {
        keys_sorted(self.current@)
    }
}

/// The processes recorded for an application, if it was seen before.
pub open spec fn known_processes(observed: Map<Seq<char>, Seq<u32>>, application: Seq<char>) -> Option<
    Seq<u32>,
> {
    if observed.contains_key(application) {
        Some(observed[application])
    } else {
        None
    }
}

/// Whether a process is new to a restoring pass: every process is on the
/// first pass, and otherwise those not seen with the application before.
pub open spec fn is_fresh(known: Option<Seq<u32>>, initial: bool, p: u32) -> bool {
    initial || match known {
        Some(k) => !k.contains(p),
        None => true,
    }
}

/// The processes of `s` that are new to a restoring pass, in order.
pub open spec fn fresh_processes(s: Seq<u32>, known: Option<Seq<u32>>, initial: bool) -> Seq<u32>
    decreases s.len(),
{
    if s.len() == 0 {
        Seq::empty()
    } else if is_fresh(known, initial, s.last()) {
        fresh_processes(s.drop_last(), known, initial).push(s.last())
    } else {
        fresh_processes(s.drop_last(), known, initial)
    }
}

/// Which processes a restoring pass treats as new: on the first pass, and for
/// an application not seen in the previous pass, all of them in order;
/// otherwise exactly those not seen with the application before, in order.
pub proof fn law_fresh_processes(s: Seq<u32>, known: Option<Seq<u32>>, initial: bool)
    ensures
        initial || known is None ==> fresh_processes(s, known, initial) == s,
        known is Some && !initial ==> fresh_processes(s, known, initial) == s.filter(
            |p: u32| !known->0.contains(p),
        ),
    decreases s.len(),
{
    reveal_with_fuel(Seq::filter, 1);
    if s.len() > 0 {
        law_fresh_processes(s.drop_last(), known, initial);
        if initial || known is None {
            assert(s.drop_last().push(s.last()) =~= s);
        }
    }
}

/// On a later pass, every process of an application that the previous pass
/// did not see is new, so a saved route is applied to all of them.
pub proof fn law_unseen_application_processes_are_fresh(
    observed: Map<Seq<char>, Seq<u32>>,
    application: Seq<char>,
    s: Seq<u32>,
)
    requires
        !observed.contains_key(application),
    ensures
        fresh_processes(s, known_processes(observed, application), false) == s,
{
    law_fresh_processes(s, known_processes(observed, application), false);
}

/// What one application's restoration asks of the shell.
pub struct RestoreStep {
    /// The route Windows reported was imported: the recorded routes changed
    /// and must be saved.
    pub imported: bool,
    /// The saved output to apply to the application's new processes, if any.
    pub reapply: Option<(String, Vec<u32>)>,
}

impl ApplicationRuntime {
    /// The engine's state.
    pub closed spec fn engine_view(&self) -> EngineView {
        self.engine@
    }

    /// The recorded routes.
    pub closed spec fn routes(&self) -> Map<Seq<char>, Seq<char>> {
        self.routes.routes()
    }

    /// The processes last seen for each application.
    pub closed spec fn observed(&self) -> Map<Seq<char>, Seq<u32>> {
        pair_map(self.observed_processes@)
    }

    /// The invariant of the engine, the store and the process record.
    pub closed spec fn wf(&self) -> bool {
        &&& self.engine.wf()
        &&& self.routes.wf()
        &&& keys_sorted(self.observed_processes@)
    }

    /// Starts the service from the first observation and the recorded routes.
    /// Restoring those routes is a separate pass (`begin_restore`).
    pub fn new(observation: Observation, routes: RouteStore) -> (r: Self)
        requires
            routes.wf(),
        ensures
            r.wf(),
            r.engine_view() == observed(
                EngineView {
                    capabilities: observation.capabilities,
                    active: Set::empty(),
                    outputs: Set::empty(),
                    system_default: None,
                    routes: Map::empty(),
                    failures: Map::empty(),
                },
                observation,
            ),
            r.routes() == routes.routes(),
            r.observed() == Map::<Seq<char>, Seq<u32>>::empty(),
    {
        let r = ApplicationRuntime {
            engine: RouterEngine::new(observation),
            routes,
            observed_processes: Vec::new(),
        };
        assert(pair_map(r.observed_processes@) =~= Map::<Seq<char>, Seq<u32>>::empty());
        r
    }

    /// Takes a new observation into the engine. Restoring routes for it is a
    /// separate pass.
    pub fn refresh(&mut self, observation: Observation)
        requires
            old(self).wf(),
        ensures
            final(self).wf(),
            final(self).engine_view() == reconciled(observed(old(self).engine_view(), observation)),
            final(self).routes() == old(self).routes(),
            final(self).observed() == old(self).observed(),
    {
        let _notices = self.engine.observe(observation);
    }

    /// The recorded output of an application, if any.
    pub fn saved_output(&self, application_id: &str) -> (r: Option<&str>)
        requires
            self.wf(),
        ensures
            r matches Some(o) ==> self.routes().contains_key(application_id@) && self.routes()[application_id@]
                == o@,
            r is None ==> !self.routes().contains_key(application_id@),
    {
        self.routes.output_for(application_id)
    }

    /// The recorded routes, for saving.
    pub fn route_store(&self) -> (r: &RouteStore)
        requires
            self.wf(),
        ensures
            r.wf(),
            r.routes() == self.routes(),
    {
        &self.routes
    }

    /// Applies a route request after Windows answered it (`routing`): the
    /// engine takes the command and the route is recorded. The caller then
    /// saves the recorded routes and calls `route_saved`.
    pub fn route(&mut self, request: &RouteRequest, routing: Result<(), RoutingError>) -> (r: Result<
        (),
        String,
    >)
        requires
            old(self).wf(),
        ensures
            final(self).wf(),
            final(self).observed() == old(self).observed(),
            routing matches Err(e) ==> (r matches Err(m) && m@ == routing_error_text(e) && final(self).engine_view() == old(self).engine_view() && final(self).routes() == old(self).routes()),
            routing is Ok && (request.application_id@.len() == 0 || (request.output_id matches Some(o)
                && o@.len() == 0)) ==> (r matches Err(m) && m@ == "a stable identity cannot be empty"@
                && final(self).engine_view() == old(self).engine_view() && final(self).routes() == old(self).routes()),
            routing is Ok && request.application_id@.len() > 0 && !(request.output_id matches Some(o)
                && o@.len() == 0) ==> ({
                let c = requested_command(
                    request.application_id@,
                    crate::popup::string_option(request.output_id),
                );
                &&& final(self).engine_view() == after_command(old(self).engine_view(), c)
                &&& accepts(old(self).engine_view(), c) ==> r is Ok && final(self).routes() == (
                match request.output_id {
                    Some(o) => old(self).routes().insert(request.application_id@, o@),
                    None => old(self).routes().remove(request.application_id@),
                })
                &&& !accepts(old(self).engine_view(), c) ==> (r matches Err(m) && m@
                    == "application routing is unavailable: "@ + availability_label(
                    old(self).engine_view().capabilities.application_routing,
                ) && final(self).routes() == old(self).routes())
            }),
    {
        if let Err(e) = routing {
            return Err(e.message());
        }
        let application = match ApplicationId::new(request.application_id.clone()) {
            Ok(a) => a,
            Err(e) => {
                return Err(e.message().to_owned());
            },
        };
        let command = match &request.output_id {
            Some(output_id) => {
                let output = match OutputId::new(output_id.clone()) {
                    Ok(o) => o,
                    Err(e) => {
                        return Err(e.message().to_owned());
                    },
                };
                Command::SetRoute { application, output }
            },
            None => Command::FollowSystemDefault { application },
        };
        match self.engine.dispatch(command) {
            Ok(_notices) => {},
            Err(e) => {
                return Err(e.message());
            },
        }
        let output = match &request.output_id {
            Some(o) => Some(o.as_str()),
            None => None,
        };
        self.routes.record(request.application_id.as_str(), output);
        Ok(())
    }

    /// Finishes a route request once the recorded routes were saved (`saved`):
    /// on success the request's processes become the application's known ones.
    pub fn route_saved(&mut self, request: RouteRequest, saved: Result<(), String>) -> (r: Result<
        (),
        String,
    >)
        requires
            old(self).wf(),
        ensures
            final(self).wf(),
            final(self).engine_view() == old(self).engine_view(),
            final(self).routes() == old(self).routes(),
            saved matches Err(m) ==> r == Err::<(), String>(m) && final(self).observed() == old(self).observed(),
            saved is Ok ==> r is Ok && (request.application_id@.len() > 0 ==> final(self).observed()
                == old(self).observed().insert(request.application_id@, request.process_ids@)),
    {
        if let Err(m) = saved {
            return Err(m);
        }
        let RouteRequest { application_id, process_ids, output_id: _ } = request;
        if let Ok(id) = ApplicationId::new(application_id) {
            upsert(&mut self.observed_processes, id, process_ids);
        }
        Ok(())
    }

    /// The sessions a volume request changes.
    pub fn set_volume(&self, request: VolumeRequest) -> (r: Result<VolumeTargets, String>)
        ensures
            request.process_ids@.len() == 0 ==> (r matches Err(m) && m@
                == "The application has no active audio sessions"@),
            request.process_ids@.len() > 0 ==> (r matches Ok(t) && ascending(t.process_ids@)
                && t.process_ids@.to_set() == request.process_ids@.to_set() && t.volume_percent == (
            if request.volume_percent <= 100 {
                request.volume_percent
            } else {
                100
            }) && t.muted == request.muted),
    {
        volume_targets(request.process_ids.as_slice(), request.volume_percent, request.muted)
    }

    /// Starts restoring the recorded routes for the applications of the
    /// latest observation.
    pub fn begin_restore(&self) -> (pass: RestorePass)
        ensures
            pass.wf(),
            pass.seen() == Map::<Seq<char>, Seq<u32>>::empty(),
    {
        let pass = RestorePass { current: Vec::new() };
        assert(pair_map(pass.current@) =~= Map::<Seq<char>, Seq<u32>>::empty());
        pass
    }

    /// Restores one application of the observation, with the processes the
    /// scan found for it. `imported` is what Windows reported it had saved
    /// for those processes; the shell asks only when no route is recorded
    /// (`saved_output` is `None`), and it is only used then, because the
    /// private getter may lag and must never erase a recorded route. A
    /// recorded route is applied in the engine, and to the processes not seen
    /// in the previous pass (all of them on the first pass, `initial`).
    pub fn restore_application(
        &mut self,
        pass: &mut RestorePass,
        application: &ApplicationId,
        process_ids: &[u32],
        imported: Option<String>,
        initial: bool,
    ) -> (step: RestoreStep)
        requires
            old(self).wf(),
            old(pass).wf(),
        ensures
            final(self).wf(),
            final(pass).wf(),
            final(self).observed() == old(self).observed(),
            final(pass).seen() == old(pass).seen().insert(application@, process_ids@),
            step.imported == (!old(self).routes().contains_key(application@) && imported is Some),
            final(self).routes() == (if step.imported {
                old(self).routes().insert(application@, imported->0@)
            } else {
                old(self).routes()
            }),
            !final(self).routes().contains_key(application@) ==> final(self).engine_view() == old(self).engine_view() && step.reapply is None,
            final(self).routes().contains_key(application@) ==> {
                let o = final(self).routes()[application@];
                let fresh = fresh_processes(process_ids@, known_processes(old(self).observed(), application@), initial);
                &&& final(self).engine_view() == (if o.len() > 0 {
                    after_command(
                        old(self).engine_view(),
                        CommandView::SetRoute { application: application@, output: o },
                    )
                } else {
                    old(self).engine_view()
                })
                &&& fresh.len() == 0 ==> step.reapply is None
                &&& fresh.len() > 0 ==> (step.reapply matches Some((out, pids)) && out@ == o
                    && pids@ == fresh)
            },
    {
        let mut step_imported = false;
        if self.routes.output_for(application.as_str()).is_none() {
            if let Some(output) = imported {
                self.routes.record(application.as_str(), Some(output.as_str()));
                step_imported = true;
            }
        }
        let mut reapply = None;
        if let Some(output_id) = self.routes.output_for(application.as_str()) {
            let output_id = output_id.to_owned();
            if let Ok(output) = OutputId::new(output_id.clone()) {
                let command = Command::SetRoute { application: application.duplicate(), output };
                let _ = self.engine.dispatch(command);
            }
            let previous = find_key(&self.observed_processes, application.as_str());
            proof {
                lemma_pair_map_dom(self.observed_processes@);
                if let Some(k) = previous {
                    lemma_pair_map_at(self.observed_processes@, k as int);
                }
            }
            let ghost known = known_processes(old(self).observed(), application@);
            let mut fresh: Vec<u32> = Vec::new();
            let mut i: usize = 0;
            assert(process_ids@.subrange(0, 0) =~= Seq::<u32>::empty());
            while i < process_ids.len()
                invariant
                    i <= process_ids@.len(),
                    self.observed_processes@ == old(self).observed_processes@,
                    keys_sorted(self.observed_processes@),
                    previous matches Some(k) ==> k < self.observed_processes@.len()
                        && self.observed_processes@[k as int].0@ == application@ && old(self).observed()[application@] == self.observed_processes@[k as int].1@,
                    previous is None ==> !old(self).observed().contains_key(application@),
                    previous is Some ==> old(self).observed().contains_key(application@),
                    known == known_processes(old(self).observed(), application@),
                    fresh@ == fresh_processes(process_ids@.subrange(0, i as int), known, initial),
                decreases process_ids@.len() - i,
            {
                let p = process_ids[i];
                let keep = if initial {
                    true
                } else {
                    match previous {
                        None => true,
                        Some(k) => !holds_process(&self.observed_processes[k].1, p),
                    }
                };
                let ghost before = process_ids@.subrange(0, i as int);
                let ghost fresh_before = fresh@;
                assert(keep == is_fresh(known, initial, p));
                if keep {
                    fresh.push(p);
                }
                i = i + 1;
                proof {
                    let after = process_ids@.subrange(0, i as int);
                    assert(after.drop_last() =~= before);
                    assert(after.last() == p);
                }
            }
            assert(process_ids@.subrange(0, process_ids@.len() as int) =~= process_ids@);
            if fresh.len() > 0 {
                reapply = Some((output_id, fresh));
            }
        }
        let pids = vstd::slice::slice_to_vec(process_ids);
        upsert(&mut pass.current, application.duplicate(), pids);
        RestoreStep { imported: step_imported, reapply }
    }

    /// Ends a restoring pass: the processes it saw become the known ones.
    pub fn finish_restore(&mut self, pass: RestorePass)
        requires
            old(self).wf(),
            pass.wf(),
        ensures
            final(self).wf(),
            final(self).observed() == pass.seen(),
            final(self).engine_view() == old(self).engine_view(),
            final(self).routes() == old(self).routes(),
    {
        self.observed_processes = pass.current;
    }

    /// The popup for the engine's current state and the latest scan.
    pub fn model(&self, stats: &ScanStats, outputs: &[WindowsOutput]) -> (r: PopupModel)
        requires
            self.wf(),
            stats.wf(),
        ensures
            exists|s: crate::model::Snapshot|
                crate::engine::snapshot_match(self.engine_view(), s) && crate::popup::popup_shows(
                    r,
                    s,
                    *stats,
                    outputs@,
                ),
    {
        let snapshot = self.engine.snapshot();
        let r = PopupModel::from_observation(&snapshot, stats, outputs);
        assert(crate::popup::popup_shows(r, snapshot, *stats, outputs@));
        r
    }
}

/// Whether `v` holds `x`.
fn holds_process(v: &Vec<u32>, x: u32) -> (r: bool)
    ensures
        r == v@.contains(x),
{
    let mut i: usize = 0;
    while i < v.len()
        invariant
            i <= v@.len(),
            forall|k: int| 0 <= k < i ==> v@[k] != x,
        decreases v@.len() - i,
    {
        if v[i] == x {
            assert(v@[i as int] == x);
            return true;
        }
        i = i + 1;
    }
    false
}

} // verus!
