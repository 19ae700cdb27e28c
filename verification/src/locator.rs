//! The Sound Locator: which application row is the audible source.
//!
//! The shell samples session peak meters and keeps the display levels, which
//! are floating-point amplitudes; it hands this module the index of the
//! loudest audible row of each sample and the sample's time in nanoseconds.
//! A new source must stay loudest for a while before it is shown, and the
//! last source survives a short silence.

use vstd::prelude::*;

verus! {

/// Private message posted whenever a fresh peak sample is available.
pub const UPDATE_MESSAGE: u32 = 0x8000 + 37;

/// How long a challenger must stay loudest before it replaces the source.
pub const SOURCE_SWITCH_DELAY_NS: u64 = 300_000_000;

/// How long the last source is kept through silence.
pub const SILENCE_HOLD_NS: u64 = 1_000_000_000;

/// Stable application metadata copied into the monitoring worker.
#[derive(Clone, Debug)]
pub struct MonitoredApplication {
    pub is_system_sounds: bool,
    pub process_ids: Vec<u32>,
}

/// The time from `since` to `now`, zero when `now` is earlier.
pub open spec fn elapsed(now: u64, since: u64) -> int {
    if now >= since {
        now - since
    } else {
        0
    }
}

/// A row that became loudest at `since` and waits to replace the source.
#[derive(Clone, Copy, Debug, PartialEq, Eq, Structural)]
pub struct Challenger {
    pub index: usize,
    pub since: u64,
}

/// Which row is shown as the audible source, and the challenger waiting to
/// replace it.
#[derive(Clone, Copy, Debug, PartialEq, Eq, Structural)]
pub struct SourceSelection {
    pub strongest: Option<usize>,
    pub candidate: Option<Challenger>,
    pub last_audible: Option<u64>,
    pub has_audible_source: bool,
}

/// The selection after one sample whose loudest audible row is `loudest`,
/// taken at `now`.
pub open spec fn selection_after(s: SourceSelection, loudest: Option<usize>, now: u64) -> SourceSelection {
    let s = SourceSelection { has_audible_source: loudest is Some, ..s };
    let selected = |i: usize|
        SourceSelection { strongest: Some(i), candidate: None, last_audible: Some(now), ..s };
    match (s.strongest, loudest) {
        (None, Some(i)) => selected(i),
        (Some(current), Some(i)) => if current == i {
            SourceSelection { candidate: None, last_audible: Some(now), ..s }
        } else {
            match s.candidate {
                Some(c) => if c.index == i && elapsed(now, c.since) >= SOURCE_SWITCH_DELAY_NS {
                    selected(i)
                } else if c.index == i {
                    s
                } else {
                    SourceSelection { candidate: Some(Challenger { index: i, since: now }), ..s }
                },
                None => SourceSelection { candidate: Some(Challenger { index: i, since: now }), ..s },
            }
        },
        (Some(_), None) => {
            let s = SourceSelection { candidate: None, ..s };
            match s.last_audible {
                Some(last) => if elapsed(now, last) >= SILENCE_HOLD_NS {
                    SourceSelection { strongest: None, ..s }
                } else {
                    s
                },
                None => s,
            }
        },
        (None, None) => SourceSelection { candidate: None, ..s },
    }
}

/// The shown source changes to another row only when that row is the loudest
/// of the sample and has waited as the challenger for the switch delay.
pub proof fn law_source_switch_needs_a_settled_challenger(
    s: SourceSelection,
    loudest: Option<usize>,
    now: u64,
    current: usize,
    i: usize,
)
    requires
        s.strongest == Some(current),
        selection_after(s, loudest, now).strongest == Some(i),
        i != current,
    ensures
        loudest == Some(i),
        s.candidate matches Some(c) && c.index == i && elapsed(now, c.since) >= SOURCE_SWITCH_DELAY_NS,
{
}

/// When the shown source is again the loudest, it stays shown, no
/// challenger waits, and its silence is counted from this sample: a source
/// that keeps playing survives any later pause shorter than the hold time.
pub proof fn law_audible_source_renews_its_hold(
    s: SourceSelection,
    i: usize,
    now: u64,
    later: u64,
)
    requires
        s.strongest == Some(i),
    ensures
        selection_after(s, Some(i), now).strongest == Some(i),
        selection_after(s, Some(i), now).candidate is None,
        selection_after(s, Some(i), now).last_audible == Some(now),
        elapsed(later, now) < SILENCE_HOLD_NS ==> selection_after(
            selection_after(s, Some(i), now),
            None,
            later,
        ).strongest == Some(i),
{
}

/// The first audible row is shown at once; another loudest row becomes the
/// challenger from this sample unless it already is; and a challenger that
/// has stayed loudest for the switch delay replaces the shown source.
pub proof fn law_source_selection_steps(s: SourceSelection, i: usize, now: u64)
    ensures
        s.strongest is None ==> selection_after(s, Some(i), now).strongest == Some(i)
            && selection_after(s, Some(i), now).last_audible == Some(now),
        s.strongest matches Some(current) && current != i && !(s.candidate matches Some(c)
            && c.index == i) ==> selection_after(s, Some(i), now).strongest == s.strongest
            && selection_after(s, Some(i), now).candidate == Some(Challenger { index: i, since: now }),
        s.strongest matches Some(current) && current != i && (s.candidate matches Some(c) && c.index
            == i && elapsed(now, c.since) >= SOURCE_SWITCH_DELAY_NS) ==> selection_after(
            s,
            Some(i),
            now,
        ).strongest == Some(i) && selection_after(s, Some(i), now).candidate is None
            && selection_after(s, Some(i), now).last_audible == Some(now),
        selection_after(s, Some(i), now).has_audible_source,
{
}

/// A shown source survives a silence shorter than the hold time.
pub proof fn law_short_silence_keeps_the_source(s: SourceSelection, now: u64, last: u64)
    requires
        s.strongest is Some,
        s.last_audible == Some(last),
        elapsed(now, last) < SILENCE_HOLD_NS,
    ensures
        selection_after(s, None, now).strongest == s.strongest,
        !selection_after(s, None, now).has_audible_source,
{
}

/// A silence at least as long as the hold time clears the shown source.
pub proof fn law_long_silence_clears_the_source(s: SourceSelection, now: u64, last: u64)
    requires
        s.strongest is Some,
        s.last_audible == Some(last),
        elapsed(now, last) >= SILENCE_HOLD_NS,
    ensures
        selection_after(s, None, now).strongest is None,
{
}

impl SourceSelection {
    /// Nothing heard yet.
    pub fn new() -> (s: Self)
        ensures
            s.strongest is None,
            s.candidate is None,
            s.last_audible is None,
            !s.has_audible_source,
    {
        SourceSelection { strongest: None, candidate: None, last_audible: None, has_audible_source: false }
    }

    /// The row shown as the audible source.
    pub fn strongest(&self) -> (r: Option<usize>)
        ensures
            r == self.strongest,
    {
        self.strongest
    }

    /// Whether the latest sample had no audible row.
    pub fn is_listening(&self) -> (r: bool)
        ensures
            r == !self.has_audible_source,
    {
        !self.has_audible_source
    }

    fn select(&mut self, index: usize, now: u64)
        ensures
            *final(self) == (SourceSelection {
                strongest: Some(index),
                candidate: None,
                last_audible: Some(now),
                ..*old(self)
            }),
    {
        self.strongest = Some(index);
        self.candidate = None;
        self.last_audible = Some(now);
    }

    /// Takes one sample: the loudest audible row, if any, at time `now`.
    pub fn update(&mut self, loudest: Option<usize>, now: u64)
        ensures
            *final(self) == selection_after(*old(self), loudest, now),
    {
        self.has_audible_source = loudest.is_some();
        match (self.strongest, loudest) {
            (None, Some(index)) => self.select(index, now),
            (Some(current), Some(index)) => {
                if current == index {
                    self.candidate = None;
                    self.last_audible = Some(now);
                } else {
                    match self.candidate {
                        Some(challenger) => {
                            let waited = if now >= challenger.since {
                                now - challenger.since
                            } else {
                                0
                            };
                            if challenger.index == index && waited >= SOURCE_SWITCH_DELAY_NS {
                                self.select(index, now);
                            } else if challenger.index == index {
                            } else {
                                self.candidate = Some(Challenger { index, since: now });
                            }
                        },
                        None => {
                            self.candidate = Some(Challenger { index, since: now });
                        },
                    }
                }
            },
            (Some(_), None) => {
                self.candidate = None;
                if let Some(last) = self.last_audible {
                    let quiet = if now >= last {
                        now - last
                    } else {
                        0
                    };
                    if quiet >= SILENCE_HOLD_NS {
                        self.strongest = None;
                    }
                }
            },
            (None, None) => {
                self.candidate = None;
            },
        }
    }
}

/// Whether a sequence of row indexes strictly increases.
pub open spec fn increasing(s: Seq<usize>) -> bool {
    forall|i: int, j: int| 0 <= i < j < s.len() ==> s[i] < s[j]
}

/// Adds a row index to a strictly increasing list, keeping it so.
fn insert_row(v: &mut Vec<usize>, row: usize)
    requires
        increasing(old(v)@),
    ensures
        increasing(final(v)@),
        final(v)@.to_set() == old(v)@.to_set().insert(row),
{
    let ghost s = v@;
    let mut i: usize = 0;
    while i < v.len() && v[i] < row
        invariant
            v@ == s,
            increasing(s),
            i <= s.len(),
            forall|k: int| 0 <= k < i ==> s[k] < row,
        decreases s.len() - i,
    {
        i = i + 1;
    }
    if i < v.len() && v[i] == row {
        assert(s.to_set() =~= s.to_set().insert(row)) by {
            assert(s.contains(row)) by {
                assert(s[i as int] == row);
            }
        }
        return;
    }
    v.insert(i, row);
    proof {
        let t = v@;
        assert(t =~= s.insert(i as int, row));
        assert forall|a: int, b: int| 0 <= a < b < t.len() implies t[a] < t[b] by {
            if b < i {
            } else if b == i {
            } else if a < i {
                assert(s[b - 1] >= s[i as int]);
            } else if a == i {
                if b - 1 > i {
                    assert(s[i as int] < s[b - 1]);
                }
            } else {
            }
        }
        assert forall|x: usize| t.to_set().contains(x) <==> s.to_set().insert(row).contains(x) by {
            if t.contains(x) {
                let k = choose|k: int| 0 <= k < t.len() && t[k] == x;
                if k < i {
                    assert(s[k] == x);
                } else if k > i {
                    assert(s[k - 1] == x);
                }
            }
            if s.contains(x) {
                let k = choose|k: int| 0 <= k < s.len() && s[k] == x;
                if k < i {
                    assert(t[k] == x);
                } else {
                    assert(t[k + 1] == x);
                }
            }
            if x == row {
                assert(t[i as int] == row);
            }
        }
        assert(t.to_set() =~= s.to_set().insert(row));
    }
}

/// The rows a sample repaints: those whose level changed, and, when the
/// shown source moved, the rows it left and reached.
pub open spec fn repainted_rows(changed: Seq<usize>, previous: Option<usize>, strongest: Option<usize>) -> Set<usize> {
    let moved = previous != strongest;
    changed.to_set().union(
        Set::new(|r: usize| moved && (previous == Some(r) || strongest == Some(r))),
    )
}

/// The rows to repaint after a sample, in increasing order, each once.
pub fn rows_to_repaint(changed: &[usize], previous: Option<usize>, strongest: Option<usize>) -> (rows: Vec<usize>)
    ensures
        increasing(rows@),
        rows@.to_set() == repainted_rows(changed@, previous, strongest),
{
    let mut rows: Vec<usize> = Vec::new();
    let mut i: usize = 0;
    assert(rows@.to_set() =~= changed@.subrange(0, 0).to_set());
    while i < changed.len()
        invariant
            i <= changed@.len(),
            increasing(rows@),
            rows@.to_set() == changed@.subrange(0, i as int).to_set(),
        decreases changed@.len() - i,
    {
        insert_row(&mut rows, changed[i]);
        proof {
            assert(changed@.subrange(0, i + 1) =~= changed@.subrange(0, i as int).push(changed@[i as int]));
            changed@.subrange(0, i as int).lemma_push_to_set_commute(changed@[i as int]);
            assert(changed@.subrange(0, i + 1).to_set() =~= changed@.subrange(0, i as int).to_set().insert(
                changed@[i as int],
            ));
        }
        i = i + 1;
    }
    assert(changed@.subrange(0, changed@.len() as int) =~= changed@);
    let moved = match (previous, strongest) {
        (None, None) => false,
        (Some(a), Some(b)) => a != b,
        _ => true,
    };
    assert(moved == (previous != strongest));
    let ghost base = rows@.to_set();
    if moved {
        if let Some(r) = previous {
            insert_row(&mut rows, r);
        }
        if let Some(r) = strongest {
            insert_row(&mut rows, r);
        }
    }
    assert(rows@.to_set() =~= repainted_rows(changed@, previous, strongest));
    rows
}

/// The last application, of applications given by their process IDs, that
/// holds `process_id`.
pub open spec fn owner_of(applications: Seq<Seq<u32>>, process_id: u32) -> Option<int>
    decreases applications.len(),
{
    if applications.len() == 0 {
        None
    } else if applications.last().contains(process_id) {
        Some(applications.len() - 1)
    } else {
        owner_of(applications.drop_last(), process_id)
    }
}

/// The applications' process IDs, as sequences.
pub open spec fn process_lists(applications: Seq<MonitoredApplication>) -> Seq<Seq<u32>> {
    applications.map_values(|a: MonitoredApplication| a.process_ids@)
}

/// Which application each process belongs to.
pub struct ProcessIndex {
    lists: Vec<Vec<u32>>,
}

impl ProcessIndex {
    /// The process IDs of each application.
    pub closed spec fn lists(&self) -> Seq<Seq<u32>> {
        self.lists@.map_values(|v: Vec<u32>| v@)
    }

    /// The application of a process; a process listed by several
    /// applications belongs to the last of them.
    pub fn get(&self, process_id: u32) -> (r: Option<usize>)
        ensures
            match owner_of(self.lists(), process_id) {
                Some(i) => r == Some(i as usize),
                None => r is None,
            },
    {
        let ghost lists = self.lists();
        let mut i: usize = self.lists.len();
        assert(lists.subrange(0, i as int) =~= lists);
        while i > 0
            invariant
                lists == self.lists(),
                i <= self.lists@.len(),
                owner_of(lists, process_id) == owner_of(lists.subrange(0, i as int), process_id),
            decreases i,
        {
            let ghost sub = lists.subrange(0, i as int);
            assert(sub.last() == self.lists@[i - 1]@);
            let v = &self.lists[i - 1];
            let mut k: usize = 0;
            let mut found = false;
            while k < v.len()
                invariant
                    k <= v@.len(),
                    found == exists|j: int| 0 <= j < k && v@[j] == process_id,
                decreases v@.len() - k,
            {
                if v[k] == process_id {
                    found = true;
                }
                k = k + 1;
            }
            if found {
                return Some(i - 1);
            }
            assert(sub.drop_last() =~= lists.subrange(0, i - 1));
            i = i - 1;
        }
        assert(lists.subrange(0, 0) =~= Seq::<Seq<u32>>::empty());
        None
    }
}

/// Indexes the processes of the monitored applications.
pub fn process_index(applications: &[MonitoredApplication]) -> (r: ProcessIndex)
    ensures
        r.lists() == process_lists(applications@),
{
    let mut lists: Vec<Vec<u32>> = Vec::new();
    let mut i: usize = 0;
    while i < applications.len()
        invariant
            i <= applications@.len(),
            lists@.len() == i,
            forall|j: int| 0 <= j < i ==> #[trigger] lists@[j]@ == applications@[j].process_ids@,
        decreases applications@.len() - i,
    {
        lists.push(vstd::slice::slice_to_vec(applications[i].process_ids.as_slice()));
        i = i + 1;
    }
    let r = ProcessIndex { lists };
    assert(r.lists() =~= process_lists(applications@));
    r
}

/// The first application that is the system-sounds group, if any.
pub open spec fn first_system_sounds(applications: Seq<MonitoredApplication>) -> Option<int>
    decreases applications.len(),
{
    if applications.len() == 0 {
        None
    } else if applications[0].is_system_sounds {
        Some(0)
    } else {
        match first_system_sounds(applications.drop_first()) {
            Some(i) => Some(i + 1),
            None => None,
        }
    }
}

/// The position of the system-sounds group among the monitored applications.
pub fn system_sounds_index(applications: &[MonitoredApplication]) -> (r: Option<usize>)
    ensures
        match first_system_sounds(applications@) {
            Some(i) => r == Some(i as usize),
            None => r is None,
        },
{
    let mut i: usize = 0;
    assert(applications@.skip(0) =~= applications@);
    while i < applications.len()
        invariant
            i <= applications@.len(),
            first_system_sounds(applications@) == match first_system_sounds(
                applications@.skip(i as int),
            ) {
                Some(j) => Some(j + i),
                None => None,
            },
        decreases applications@.len() - i,
    {
        assert(applications@.skip(i as int)[0] == applications@[i as int]);
        if applications[i].is_system_sounds {
            return Some(i);
        }
        assert(applications@.skip(i as int).drop_first() =~= applications@.skip(i + 1));
        i = i + 1;
    }
    assert(applications@.skip(i as int) =~= Seq::<MonitoredApplication>::empty());
    None
}

/// The row a session's meter belongs to: the system-sounds row for the
/// system-sounds session, else the row of its process (`None` when Windows
/// did not report one).
pub fn session_row(
    index: &ProcessIndex,
    system_sounds: Option<usize>,
    is_system_sounds: bool,
    process_id: Option<u32>,
) -> (r: Option<usize>)
    ensures
        is_system_sounds ==> r == system_sounds,
        !is_system_sounds ==> match process_id {
            Some(pid) => match owner_of(index.lists(), pid) {
                Some(i) => r == Some(i as usize),
                None => r is None,
            },
            None => r is None,
        },
{
    if is_system_sounds {
        system_sounds
    } else {
        match process_id {
            Some(pid) => index.get(pid),
            None => None,
        }
    }
}

} // verus!
