//! What one scan of the Windows audio sessions found, grouped by application.
//!
//! The shell walks the render endpoints and their sessions; for each active
//! session it resolves the owning application and records it here. Session
//! volume levels arrive as whole percentages (the shell rounds Windows'
//! level), so the loudest session of a group gives the group's percentage.

use vstd::prelude::*;

use crate::identity::{ApplicationId, OutputId};
use crate::keyed::{StableKey, find_key, keys_sorted, key_seq, lemma_pair_map_at, lemma_pair_map_dom, pair_map, upsert};
use crate::model::{Capabilities, CapabilityAvailability, Observation};
use crate::process_identity::ProcessIdentity;
use crate::text::{is_blank, trim};

verus! {

/// The stable identity of the Windows system-sounds session.
pub const SYSTEM_SOUNDS_ID: &'static str = "windows:system-sounds";

/// Owned Windows output metadata kept outside the cross-platform domain model.
#[derive(Clone, Debug, Eq, PartialEq)]
pub struct WindowsOutput {
    pub id: OutputId,
    pub name: String,
    pub is_default: bool,
}

/// The volume of an application: its loudest session, and whether every
/// session with a known volume is muted.
#[derive(Clone, Copy, Debug, Eq, PartialEq, Structural)]
pub struct ApplicationVolume {
    pub percent: u8,
    pub muted: bool,
}

/// The sessions recorded for one application.
#[derive(Debug)]
pub struct GroupStats {
    sessions: usize,
    processes: Vec<u32>,
    executable_path: Option<String>,
    max_percent: Option<u8>,
    all_muted: bool,
}

/// The mathematical view of [`GroupStats`].
pub struct GroupView {
    /// How many sessions were recorded.
    pub sessions: nat,
    /// The contributing process IDs.
    pub processes: Set<u32>,
    /// The executable path of the first session that had one.
    pub executable_path: Option<Seq<char>>,
    /// The loudest known session volume, as a percentage.
    pub max_percent: Option<u8>,
    /// Whether every session with a known volume is muted.
    pub all_muted: bool,
}

impl View for GroupStats {
    type V = GroupView;

    closed spec fn view(&self) -> GroupView {
        GroupView {
            sessions: self.sessions as nat,
            processes: self.processes@.to_set(),
            executable_path: match &self.executable_path {
                Some(p) => Some(p@),
                None => None,
            },
            max_percent: self.max_percent,
            all_muted: self.all_muted,
        }
    }
}

/// Whether a sequence of process IDs strictly increases.
pub open spec fn ascending(s: Seq<u32>) -> bool {
    forall|i: int, j: int| 0 <= i < j < s.len() ==> s[i] < s[j]
}

/// The view of a group before its first session.
pub open spec fn empty_group() -> GroupView {
    GroupView {
        sessions: 0,
        processes: Set::empty(),
        executable_path: None,
        max_percent: None,
        all_muted: false,
    }
}

/// A group after one more session of process `pid`, with the session's
/// executable path and, when known, its volume percentage and mute state.
pub open spec fn group_after(
    g: GroupView,
    executable_path: Option<Seq<char>>,
    pid: u32,
    volume: Option<(u8, bool)>,
) -> GroupView {
    GroupView {
        sessions: g.sessions + 1,
        processes: g.processes.insert(pid),
        executable_path: if g.executable_path is None {
            executable_path
        } else {
            g.executable_path
        },
        max_percent: match volume {
            Some((level, _)) => match g.max_percent {
                Some(current) => Some(
                    if current >= level {
                        current
                    } else {
                        level
                    },
                ),
                None => Some(level),
            },
            None => g.max_percent,
        },
        all_muted: match volume {
            Some((_, muted)) => if g.max_percent is None {
                muted
            } else {
                g.all_muted && muted
            },
            None => g.all_muted,
        },
    }
}

/// One recorded session: its executable path, process and, when known, its
/// volume percentage and mute state.
pub type SessionRecord = (Option<Seq<char>>, u32, Option<(u8, bool)>);

/// The group after recording `sessions` in order, starting empty.
pub open spec fn group_of_sessions(sessions: Seq<SessionRecord>) -> GroupView
    decreases sessions.len(),
{
    if sessions.len() == 0 {
        empty_group()
    } else {
        let last = sessions.last();
        group_after(group_of_sessions(sessions.drop_last()), last.0, last.1, last.2)
    }
}

/// Whether some session of `sessions` has a known volume.
pub open spec fn some_volume_known(sessions: Seq<SessionRecord>) -> bool {
    exists|k: int| 0 <= k < sessions.len() && (#[trigger] sessions[k]).2 is Some
}

/// A group reports a volume exactly when some session's volume is known; the
/// volume is the loudest known one, and the group is muted exactly when every
/// session with a known volume is muted, whatever order they came in.
pub proof fn law_group_volume_and_mute(sessions: Seq<SessionRecord>)
    ensures
        group_of_sessions(sessions).max_percent is Some <==> some_volume_known(sessions),
        group_of_sessions(sessions).max_percent matches Some(p) ==> {
            &&& forall|k: int|
                0 <= k < sessions.len() ==> ((#[trigger] sessions[k]).2 matches Some((level, _))
                    ==> level <= p)
            &&& exists|k: int|
                0 <= k < sessions.len() && (#[trigger] sessions[k]).2 is Some && (sessions[k].2->0).0 == p
        },
        group_of_sessions(sessions).all_muted <==> (some_volume_known(sessions) && forall|k: int|
            0 <= k < sessions.len() ==> ((#[trigger] sessions[k]).2 matches Some((_, muted))
                ==> muted)),
        group_of_sessions(sessions).sessions == sessions.len(),
    decreases sessions.len(),
{
    if sessions.len() > 0 {
        let rest = sessions.drop_last();
        law_group_volume_and_mute(rest);
        let n = sessions.len() - 1;
        assert forall|k: int| 0 <= k < n implies #[trigger] sessions[k] == rest[k] by {}
        if some_volume_known(rest) {
            let k = choose|k: int| 0 <= k < rest.len() && (#[trigger] rest[k]).2 is Some;
            assert(sessions[k] == rest[k]);
        }
        if some_volume_known(sessions) && !some_volume_known(rest) {
            let k = choose|k: int| 0 <= k < sessions.len() && (#[trigger] sessions[k]).2 is Some;
            if k < n {
                assert(rest[k] == sessions[k]);
            }
        }
        let g = group_of_sessions(rest);
        if let Some(p) = g.max_percent {
            let k = choose|k: int|
                0 <= k < rest.len() && (#[trigger] rest[k]).2 is Some && (rest[k].2->0).0 == p;
            assert(sessions[k] == rest[k]);
        }
        assert forall|k: int| 0 <= k < n && (#[trigger] sessions[k]).2 is Some implies some_volume_known(rest) by {
            assert(rest[k] == sessions[k]);
        }
    }
}

/// A group holds the processes of all its sessions, and the executable path
/// of the first session that had one.
pub proof fn law_group_processes_and_path(sessions: Seq<SessionRecord>)
    ensures
        forall|pid: u32|
            group_of_sessions(sessions).processes.contains(pid) <==> exists|k: int|
                0 <= k < sessions.len() && (#[trigger] sessions[k]).1 == pid,
        group_of_sessions(sessions).executable_path is None <==> forall|k: int|
            0 <= k < sessions.len() ==> (#[trigger] sessions[k]).0 is None,
        group_of_sessions(sessions).executable_path is Some ==> exists|k: int|
            0 <= k < sessions.len() && (#[trigger] sessions[k]).0 == group_of_sessions(sessions).executable_path
                && forall|j: int| 0 <= j < k ==> (#[trigger] sessions[j]).0 is None,
    decreases sessions.len(),
{
    if sessions.len() > 0 {
        let rest = sessions.drop_last();
        let n = sessions.len() - 1;
        law_group_processes_and_path(rest);
        assert forall|k: int| 0 <= k < n implies #[trigger] sessions[k] == rest[k] by {}
        assert forall|pid: u32|
            group_of_sessions(sessions).processes.contains(pid) <==> exists|k: int|
                0 <= k < sessions.len() && (#[trigger] sessions[k]).1 == pid by {
            if group_of_sessions(rest).processes.contains(pid) {
                let k = choose|k: int| 0 <= k < rest.len() && (#[trigger] rest[k]).1 == pid;
                assert(sessions[k] == rest[k]);
            }
            if exists|k: int| 0 <= k < sessions.len() && (#[trigger] sessions[k]).1 == pid {
                let k = choose|k: int| 0 <= k < sessions.len() && (#[trigger] sessions[k]).1 == pid;
                if k < n {
                    assert(rest[k] == sessions[k]);
                }
            }
        }
        if group_of_sessions(rest).executable_path is Some {
            let k = choose|k: int|
                0 <= k < rest.len() && (#[trigger] rest[k]).0 == group_of_sessions(rest).executable_path
                    && forall|j: int| 0 <= j < k ==> (#[trigger] rest[j]).0 is None;
            assert(sessions[k] == rest[k]);
            assert forall|j: int| 0 <= j < k implies (#[trigger] sessions[j]).0 is None by {
                assert(rest[j] == sessions[j]);
            }
        } else {
            assert forall|j: int| 0 <= j < n implies (#[trigger] sessions[j]).0 is None by {
                assert(rest[j] == sessions[j]);
            }
        }
    }
}

/// Adds `pid` to an ascending vector, keeping it ascending and free of repetition.
fn insert_process(v: &mut Vec<u32>, pid: u32)
    requires
        ascending(old(v)@),
    ensures
        ascending(final(v)@),
        final(v)@.to_set() == old(v)@.to_set().insert(pid),
{
    let ghost s = v@;
    let mut i: usize = 0;
    while i < v.len() && v[i] < pid
        invariant
            v@ == s,
            ascending(s),
            i <= s.len(),
            forall|k: int| 0 <= k < i ==> s[k] < pid,
        decreases s.len() - i,
    {
        i = i + 1;
    }
    if i < v.len() && v[i] == pid {
        assert(s.to_set() =~= s.to_set().insert(pid)) by {
            assert(s.contains(pid)) by {
                assert(s[i as int] == pid);
            }
        }
        return;
    }
    v.insert(i, pid);
    proof {
        let t = v@;
        assert(t =~= s.insert(i as int, pid));
        assert forall|a: int, b: int| 0 <= a < b < t.len() implies t[a] < t[b] by {
            if b < i {
            } else if b == i {
            } else if a < i {
                assert(s[b - 1] >= s[i as int]);
            } else if a == i {
                if b - 1 > i {
                    assert(s[i as int] < s[b - 1]);
                }
            } else {
            }
        }
        assert forall|x: u32| t.to_set().contains(x) <==> s.to_set().insert(pid).contains(x) by {
            if t.contains(x) {
                let k = choose|k: int| 0 <= k < t.len() && t[k] == x;
                if k < i {
                    assert(s[k] == x);
                } else if k > i {
                    assert(s[k - 1] == x);
                }
            }
            if s.contains(x) {
                let k = choose|k: int| 0 <= k < s.len() && s[k] == x;
                if k < i {
                    assert(t[k] == x);
                } else {
                    assert(t[k + 1] == x);
                }
            }
            if x == pid {
                assert(t[i as int] == pid);
            }
        }
        assert(t.to_set() =~= s.to_set().insert(pid));
    }
}

/// Adds `pid` to a vector unless it is already there.
fn add_process(v: &mut Vec<u32>, pid: u32)
    ensures
        final(v)@.to_set() == old(v)@.to_set().insert(pid),
{
    let mut i: usize = 0;
    while i < v.len()
        invariant
            i <= v@.len(),
            forall|k: int| 0 <= k < i ==> v@[k] != pid,
        decreases v@.len() - i,
    {
        if v[i] == pid {
            assert(v@.to_set() =~= v@.to_set().insert(pid)) by {
                assert(v@.contains(pid)) by {
                    assert(v@[i as int] == pid);
                }
            }
            return;
        }
        i = i + 1;
    }
    let ghost s = v@;
    v.push(pid);
    proof {
        assert forall|x: u32| v@.to_set().contains(x) <==> s.to_set().insert(pid).contains(x) by {
            if v@.contains(x) {
                let k = choose|k: int| 0 <= k < v@.len() && v@[k] == x;
                if k < s.len() {
                    assert(s[k] == x);
                }
            }
            if s.contains(x) {
                let k = choose|k: int| 0 <= k < s.len() && s[k] == x;
                assert(v@[k] == x);
            }
            if x == pid {
                assert(v@[s.len() as int] == pid);
            }
        }
        assert(v@.to_set() =~= s.to_set().insert(pid));
    }
}

/// The same values in ascending order, each once.
pub fn sorted_processes(v: &Vec<u32>) -> (r: Vec<u32>)
    ensures
        ascending(r@),
        r@.to_set() == v@.to_set(),
{
    let mut r: Vec<u32> = Vec::new();
    let mut i: usize = 0;
    assert(r@.to_set() =~= v@.subrange(0, 0).to_set());
    while i < v.len()
        invariant
            i <= v@.len(),
            ascending(r@),
            r@.to_set() == v@.subrange(0, i as int).to_set(),
        decreases v@.len() - i,
    {
        let ghost before = v@.subrange(0, i as int);
        insert_process(&mut r, v[i]);
        i = i + 1;
        proof {
            let after = v@.subrange(0, i as int);
            assert(after =~= before.push(v@[i - 1]));
            assert forall|x: u32| after.to_set().contains(x) <==> before.to_set().insert(
                v@[i - 1],
            ).contains(x) by {
                if after.contains(x) {
                    let k = choose|k: int| 0 <= k < after.len() && after[k] == x;
                    if k < before.len() {
                        assert(before[k] == x);
                    }
                }
                if before.contains(x) {
                    let k = choose|k: int| 0 <= k < before.len() && before[k] == x;
                    assert(after[k] == x);
                }
                if x == v@[i - 1] {
                    assert(after[i - 1] == x);
                }
            }
            assert(after.to_set() =~= before.to_set().insert(v@[i - 1]));
        }
    }
    assert(v@.subrange(0, v@.len() as int) =~= v@);
    r
}

impl GroupStats {
    /// A group before its first session.
    fn empty() -> (g: Self)
        ensures
            g@ == empty_group(),
            ascending(g.processes@),
    {
        let g = GroupStats {
            sessions: 0,
            processes: Vec::new(),
            executable_path: None,
            max_percent: None,
            all_muted: false,
        };
        assert(g.processes@.to_set() =~= Set::<u32>::empty());
        g
    }

    /// An independent copy of this group.
    fn duplicate(&self) -> (g: Self)
        ensures
            g@ == self@,
    {
        GroupStats {
            sessions: self.sessions,
            processes: vstd::slice::slice_to_vec(self.processes.as_slice()),
            executable_path: match &self.executable_path {
                Some(p) => Some(p.clone()),
                None => None,
            },
            max_percent: self.max_percent,
            all_muted: self.all_muted,
        }
    }

    /// This group after one more session.
    fn with_session(self, executable_path: Option<String>, pid: u32, volume: Option<(u8, bool)>) -> (g:
        Self)
        requires
            self@.sessions < usize::MAX,
        ensures
            g@ == group_after(
                self@,
                match executable_path {
                    Some(p) => Some(p@),
                    None => None,
                },
                pid,
                volume,
            ),
    {
        let mut g = self;
        g.sessions = g.sessions + 1;
        add_process(&mut g.processes, pid);
        if g.executable_path.is_none() {
            g.executable_path = executable_path;
        }
        if let Some((level, muted)) = volume {
            g.all_muted = if g.max_percent.is_none() {
                muted
            } else {
                g.all_muted && muted
            };
            g.max_percent = Some(
                match g.max_percent {
                    Some(current) => if current >= level {
                        current
                    } else {
                        level
                    },
                    None => level,
                },
            );
        }
        g
    }
}

/// What one scan found: session counters and one group per application,
/// kept in identity order.
pub struct ScanStats {
    pub active_sessions: usize,
    pub skipped_sessions: usize,
    pub endpoint_failures: usize,
    pub inaccessible_processes: usize,
    /// One group per application, in identity order (see `wf`).
    pub groups: Vec<(ApplicationId, GroupStats)>,
}


/// The groups a scan holds, by application identity.
pub open spec fn scan_groups_wf(groups: Map<Seq<char>, GroupView>) -> bool {
    forall|k: Seq<char>| #[trigger] groups.contains_key(k) ==> (groups[k].max_percent matches Some(p)
        ==> p <= 100)
}

impl ScanStats {
    /// The recorded groups, by application identity.
    pub closed spec fn groups(&self) -> Map<Seq<char>, GroupView> {
        pair_map(self.groups@)
    }

    /// The identities of the recorded groups, in identity order.
    pub closed spec fn application_keys(&self) -> Seq<Seq<char>> {
        key_seq(self.groups@)
    }

    /// The invariant: one group per identity, kept in identity order, and
    /// volume percentages within a hundred.
    pub closed spec fn wf(&self) -> bool {
        &&& keys_sorted(self.groups@)
        &&& scan_groups_wf(self.groups())
    }

    /// The group recorded for an application, or an empty one.
    pub open spec fn group_or_empty(&self, application: Seq<char>) -> GroupView {
        if self.groups().contains_key(application) {
            self.groups()[application]
        } else {
            empty_group()
        }
    }

    /// The application keys strictly increase and are the groups' identities.
    pub proof fn lemma_application_keys(&self)
        requires
            self.wf(),
        ensures
            forall|i: int, j: int|
                0 <= i < j < self.application_keys().len() ==> crate::text::lex_lt(
                    #[trigger] self.application_keys()[i],
                    #[trigger] self.application_keys()[j],
                ),
            self.application_keys().to_set() == self.groups().dom(),
    {
        lemma_pair_map_dom(self.groups@);
        let ks = self.application_keys();
        assert forall|k: Seq<char>| ks.to_set().contains(k) <==> self.groups().dom().contains(k) by {
            if ks.contains(k) {
                let i = choose|i: int| 0 <= i < ks.len() && ks[i] == k;
                assert(self.groups@[i].key() == k);
            }
            if self.groups().dom().contains(k) {
                let i = choose|i: int| 0 <= i < self.groups@.len() && #[trigger] self.groups@[i].key()
                    == k;
                assert(ks[i] == k);
            }
        }
        assert(ks.to_set() =~= self.groups().dom());
    }

    /// A scan that has found nothing yet.
    pub fn new() -> (stats: Self)
        ensures
            stats.wf(),
            stats.groups() == Map::<Seq<char>, GroupView>::empty(),
            stats.active_sessions == 0,
            stats.skipped_sessions == 0,
            stats.endpoint_failures == 0,
            stats.inaccessible_processes == 0,
    {
        let stats = ScanStats {
            active_sessions: 0,
            skipped_sessions: 0,
            endpoint_failures: 0,
            inaccessible_processes: 0,
            groups: Vec::new(),
        };
        assert(stats.groups() =~= Map::<Seq<char>, GroupView>::empty());
        stats
    }

    /// Records one active session of process `pid`, owned by `identity`, with
    /// its volume percentage and mute state when Windows reported them.
    pub fn record_session(
        &mut self,
        identity: ProcessIdentity,
        pid: u32,
        volume: Option<(u8, bool)>,
    )
        requires
            old(self).wf(),
            old(self).group_or_empty(identity.application_id@).sessions < usize::MAX,
            volume matches Some((level, _)) ==> level <= 100,
        ensures
            final(self).wf(),
            final(self).groups() == old(self).groups().insert(
                identity.application_id@,
                group_after(
                    old(self).group_or_empty(identity.application_id@),
                    match identity.executable_path {
                        Some(p) => Some(p@),
                        None => None,
                    },
                    pid,
                    volume,
                ),
            ),
            final(self).active_sessions == old(self).active_sessions,
            final(self).skipped_sessions == old(self).skipped_sessions,
            final(self).endpoint_failures == old(self).endpoint_failures,
            final(self).inaccessible_processes == old(self).inaccessible_processes,
    {
        let ProcessIdentity { application_id, executable_path } = identity;
        let current = match find_key(&self.groups, application_id.as_str()) {
            Some(i) => {
                proof {
                    lemma_pair_map_at(self.groups@, i as int);
                }
                self.groups[i].1.duplicate()
            },
            None => {
                proof {
                    lemma_pair_map_dom(self.groups@);
                }
                GroupStats::empty()
            },
        };
        let updated = current.with_session(executable_path, pid, volume);
        let ghost before = self.groups();
        upsert(&mut self.groups, application_id, updated);
        assert(scan_groups_wf(self.groups())) by {
            assert forall|k: Seq<char>| #[trigger] self.groups().contains_key(k) implies (
            self.groups()[k].max_percent matches Some(p) ==> p <= 100) by {
                if k != application_id@ {
                    assert(before.contains_key(k));
                }
            }
        }
    }

    /// The unique process IDs that currently contribute sessions to an
    /// application group, ascending so that updates are deterministic.
    pub fn processes_for(&self, application: &str) -> (r: Vec<u32>)
        requires
            self.wf(),
        ensures
            ascending(r@),
            r@.to_set() == self.group_or_empty(application@).processes,
    {
        match find_key(&self.groups, application) {
            Some(i) => {
                proof {
                    lemma_pair_map_at(self.groups@, i as int);
                }
                sorted_processes(&self.groups[i].1.processes)
            },
            None => {
                proof {
                    lemma_pair_map_dom(self.groups@);
                }
                let r: Vec<u32> = Vec::new();
                assert(r@.to_set() =~= Set::<u32>::empty());
                r
            },
        }
    }

    /// An executable path suitable for asking the Windows shell for the
    /// application's icon. Packaged identities may have none.
    pub fn executable_path_for(&self, application: &str) -> (r: Option<&str>)
        requires
            self.wf(),
        ensures
            crate::routing::text_option(r) == self.group_or_empty(application@).executable_path,
    {
        match find_key(&self.groups, application) {
            Some(i) => {
                proof {
                    lemma_pair_map_at(self.groups@, i as int);
                }
                match &self.groups[i].1.executable_path {
                    Some(p) => Some(p.as_str()),
                    None => None,
                }
            },
            None => {
                proof {
                    lemma_pair_map_dom(self.groups@);
                }
                None
            },
        }
    }

    /// The volume of an application: its loudest session and whether all of
    /// its sessions are muted; `None` when no session volume is known.
    pub fn volume_for(&self, application: &str) -> (r: Option<ApplicationVolume>)
        requires
            self.wf(),
        ensures
            r == (match self.group_or_empty(application@).max_percent {
                Some(p) => Some(
                    ApplicationVolume { percent: p, muted: self.group_or_empty(application@).all_muted },
                ),
                None => None,
            }),
    {
        match find_key(&self.groups, application) {
            Some(i) => {
                proof {
                    lemma_pair_map_at(self.groups@, i as int);
                }
                let group = &self.groups[i].1;
                match group.max_percent {
                    Some(p) => Some(ApplicationVolume { percent: p, muted: group.all_muted }),
                    None => None,
                }
            },
            None => {
                proof {
                    lemma_pair_map_dom(self.groups@);
                }
                None
            },
        }
    }

    /// How many sessions were recorded for an application.
    pub fn sessions_for(&self, application: &str) -> (r: usize)
        requires
            self.wf(),
        ensures
            r == self.group_or_empty(application@).sessions,
    {
        match find_key(&self.groups, application) {
            Some(i) => {
                proof {
                    lemma_pair_map_at(self.groups@, i as int);
                }
                self.groups[i].1.sessions
            },
            None => {
                proof {
                    lemma_pair_map_dom(self.groups@);
                }
                0
            },
        }
    }

    /// How many applications were found.
    pub fn group_count(&self) -> (r: usize)
        requires
            self.wf(),
        ensures
            r == self.groups().len(),
    {
        proof {
            self.lemma_application_keys();
            lemma_distinct_keys_len(self.application_keys());
        }
        self.groups.len()
    }

    /// The observation of this scan: application routing is available, the
    /// applications are the groups' identities in identity order.
    pub fn observation(&self, outputs: Vec<OutputId>, system_default: Option<OutputId>) -> (r:
        Observation)
        requires
            self.wf(),
        ensures
            r.capabilities == (Capabilities { application_routing: CapabilityAvailability::Available }),
            r.applications.deep_view() == self.application_keys(),
            r.outputs == outputs,
            r.system_default == system_default,
    {
        let mut applications: Vec<ApplicationId> = Vec::new();
        let mut i: usize = 0;
        while i < self.groups.len()
            invariant
                i <= self.groups@.len(),
                applications@.len() == i,
                forall|j: int| 0 <= j < i ==> #[trigger] applications@[j]@ == self.groups@[j].0@,
            decreases self.groups@.len() - i,
        {
            let id = self.groups[i].0.duplicate();
            applications.push(id);
            i = i + 1;
        }
        assert(applications.deep_view() =~= key_seq(self.groups@)) by {
            assert forall|j: int| 0 <= j < applications@.len() implies applications.deep_view()[j]
                == key_seq(self.groups@)[j] by {
                assert(applications@[j]@ == self.groups@[j].0@);
            }
        }
        Observation {
            capabilities: Capabilities { application_routing: CapabilityAvailability::Available },
            applications,
            outputs,
            system_default,
        }
    }
}

/// A sequence without repetition has as many elements as its set.
proof fn lemma_distinct_keys_len(s: Seq<Seq<char>>)
    requires
        forall|i: int, j: int|
            0 <= i < j < s.len() ==> crate::text::lex_lt(#[trigger] s[i], #[trigger] s[j]),
    ensures
        s.to_set().len() == s.len(),
{
    assert forall|i: int, j: int| 0 <= i < s.len() && 0 <= j < s.len() && i != j implies s[i]
        != s[j] by {
        if i < j {
            crate::text::lemma_lex_irreflexive(s[i]);
        } else {
            crate::text::lemma_lex_irreflexive(s[j]);
        }
    }
    assert(s.no_duplicates());
    s.unique_seq_to_set();
}

/// The metadata shown for an output: its friendly name unless that is blank,
/// else its identity; and whether it is the exact system default.
pub fn build_output_metadata(
    id: OutputId,
    friendly_name: Option<String>,
    default_output: Option<&OutputId>,
) -> (r: WindowsOutput)
    ensures
        r.id@ == id@,
        r.name@ == (match friendly_name {
            Some(n) => if trim(n@).len() > 0 {
                n@
            } else {
                id@
            },
            None => id@,
        }),
        r.is_default == (default_output matches Some(d) && d@ == id@),
{
    let is_default = match default_output {
        Some(d) => d.same_as(&id),
        None => false,
    };
    let name = match friendly_name {
        Some(n) => if is_blank(n.as_str()) {
            id.as_str().to_owned()
        } else {
            n
        },
        None => id.as_str().to_owned(),
    };
    WindowsOutput { id, name, is_default }
}

/// The identity of the system-sounds session, which has no executable.
pub fn system_sounds_identity() -> (r: ProcessIdentity)
    ensures
        r.application_id@ == SYSTEM_SOUNDS_ID@,
        r.executable_path is None,
{
    proof {
        reveal_strlit("windows:system-sounds");
    }
    let application_id = ApplicationId::new(SYSTEM_SOUNDS_ID.to_owned()).unwrap();
    ProcessIdentity { application_id, executable_path: None }
}

} // verus!
