//! Owned presentation data for the native popup, and the requests it sends.
//!
//! Native handles stay out of this model: the popup may be rebuilt after any
//! observation without retaining COM or process handles.

use vstd::prelude::*;

use crate::i18n::{Locale, Text, text, text_of};
use crate::audio::{ApplicationVolume, ScanStats, WindowsOutput, SYSTEM_SOUNDS_ID, ascending};
use crate::model::Snapshot;
use crate::routing::text_option;
use crate::text::{
    chars_of, has_prefix, has_suffix, string_from_chars, strip_prefix_chars, strip_suffix_chars,
    chars_between, text_eq,
};

verus! {

/// How many applications the popup lists.
pub const MAX_VISIBLE_APPLICATIONS: usize = 7;

/// The prefix of an identity built from an executable path.
pub const PATH_IDENTITY_PREFIX: &'static str = "windows:path:";

/// The prefix of an identity built from a packaged application ID.
pub const AUMID_IDENTITY_PREFIX: &'static str = "windows:aumid:";

/// A fallback label in the popup's language: `System default` and
/// `Unavailable output` are translated, any other name is kept.
pub open spec fn localized_label(locale: Locale, name: Seq<char>) -> Seq<char> {
    if name == "System default"@ {
        text_of(locale, Text::SystemDefault)
    } else if name == "Unavailable output"@ {
        text_of(locale, Text::UnavailableOutput)
    } else {
        name
    }
}

/// The name of an application row in the popup's language: the system
/// sounds row and the generic `Application` label are translated.
pub open spec fn localized_application_label(locale: Locale, application_id: Seq<char>, name: Seq<char>) -> Seq<char> {
    if application_id == SYSTEM_SOUNDS_ID@ {
        text_of(locale, Text::SystemSounds)
    } else if name == "Application"@ {
        text_of(locale, Text::Application)
    } else {
        name
    }
}

/// Names an application row in the popup's language.
pub fn localized_application_name(locale: Locale, application: &ApplicationRow) -> (r: String)
    ensures
        r@ == localized_application_label(locale, application.application_id@, application.name@),
{
    proof {
        reveal_strlit("Application");
    }
    if text_eq(application.application_id.as_str(), SYSTEM_SOUNDS_ID) {
        String::from_str(text(locale, Text::SystemSounds))
    } else if text_eq(application.name.as_str(), "Application") {
        String::from_str(text(locale, Text::Application))
    } else {
        application.name.clone()
    }
}

/// One grouped application row in the popup.
pub struct ApplicationRow {
    /// Stable engine identity used by the routing boundary.
    pub application_id: String,
    pub name: String,
    /// Optional executable path used only to ask Windows for the real app icon.
    pub icon_path: Option<String>,
    /// Every active process represented by this grouped application.
    pub process_ids: Vec<u32>,
    /// `None` means the application follows the system default.
    pub selected_output_id: Option<String>,
    pub volume_percent: u8,
    pub muted: bool,
}

/// A concrete output displayed in an application's native submenu.
pub struct OutputChoice {
    pub id: String,
    pub name: String,
    pub is_system_default: bool,
}

/// Owned request passed from presentation code to the Windows routing adapter.
#[derive(Clone, Debug, Eq, PartialEq)]
pub struct RouteRequest {
    pub application_id: String,
    pub process_ids: Vec<u32>,
    /// `None` asks Windows to make the application follow the system default.
    pub output_id: Option<String>,
}

/// Owned request passed from presentation code to the Windows session-volume adapter.
#[derive(Clone, Debug, Eq, PartialEq)]
pub struct VolumeRequest {
    pub application_id: String,
    pub process_ids: Vec<u32>,
    pub volume_percent: u8,
    pub muted: bool,
}

/// Owned presentation data consumed by the native popup.
pub struct PopupModel {
    pub applications: Vec<ApplicationRow>,
    pub outputs: Vec<OutputChoice>,
}

/// The view of an optional owned text.
pub open spec fn string_option(o: Option<String>) -> Option<Seq<char>> {
    match o {
        Some(s) => Some(s@),
        None => None,
    }
}

/// How many characters at the end of `s` are neither `a` nor `b`.
pub open spec fn trailing_run(s: Seq<char>, a: char, b: char) -> nat
    decreases s.len(),
{
    if s.len() == 0 || s.last() == a || s.last() == b {
        0
    } else {
        trailing_run(s.drop_last(), a, b) + 1
    }
}

proof fn lemma_trailing_run(s: Seq<char>, a: char, b: char)
    ensures
        trailing_run(s, a, b) <= s.len(),
        forall|k: int|
            s.len() - trailing_run(s, a, b) <= k < s.len() ==> #[trigger] s[k] != a && s[k] != b,
        trailing_run(s, a, b) < s.len() ==> (s[s.len() - trailing_run(s, a, b) - 1] == a
            || s[s.len() - trailing_run(s, a, b) - 1] == b),
    decreases s.len(),
{
    if s.len() > 0 && s.last() != a && s.last() != b {
        let t = s.drop_last();
        lemma_trailing_run(t, a, b);
        assert forall|k: int| s.len() - trailing_run(s, a, b) <= k < s.len() implies #[trigger] s[k]
            != a && s[k] != b by {
            if k < s.len() - 1 {
                assert(s[k] == t[k]);
            }
        }
        if trailing_run(s, a, b) < s.len() {
            assert(s[s.len() - trailing_run(s, a, b) - 1] == t[t.len() - trailing_run(t, a, b) - 1]);
        }
    }
}

/// The text after the last `a` or `b` in `s` (all of `s` when there is none).
pub open spec fn last_segment(s: Seq<char>, a: char, b: char) -> Seq<char> {
    s.subrange(s.len() - trailing_run(s, a, b), s.len() as int)
}

/// The last non-empty part of `s` between `!` and `.` separators.
pub open spec fn last_nonempty_segment(s: Seq<char>) -> Option<Seq<char>>
    decreases s.len(),
{
    if s.len() == 0 {
        None
    } else if s.last() == '!' || s.last() == '.' {
        last_nonempty_segment(s.drop_last())
    } else {
        Some(last_segment(s, '!', '.'))
    }
}

/// A file name without an `.exe` or `.EXE` extension.
pub open spec fn without_exe(file_name: Seq<char>) -> Seq<char> {
    if has_suffix(file_name, ".exe"@) {
        file_name.subrange(0, file_name.len() - 4)
    } else if has_suffix(file_name, ".EXE"@) {
        file_name.subrange(0, file_name.len() - 4)
    } else {
        file_name
    }
}

/// The human label of an application identity: system sounds by name, an
/// executable by its file name without extension, a packaged application by
/// the last part of its ID.
pub open spec fn display_name_of(identity: Seq<char>) -> Seq<char> {
    if identity == SYSTEM_SOUNDS_ID@ {
        "System sounds"@
    } else if has_prefix(identity, PATH_IDENTITY_PREFIX@) {
        let path = identity.subrange(PATH_IDENTITY_PREFIX@.len() as int, identity.len() as int);
        without_exe(last_segment(path, '\\', '/'))
    } else if has_prefix(identity, AUMID_IDENTITY_PREFIX@) {
        match last_nonempty_segment(
            identity.subrange(AUMID_IDENTITY_PREFIX@.len() as int, identity.len() as int),
        ) {
            Some(segment) => segment,
            None => "Application"@,
        }
    } else {
        "Application"@
    }
}

/// The executable path an identity was built from, if it was.
pub open spec fn executable_path_of(identity: Seq<char>) -> Option<Seq<char>> {
    if has_prefix(identity, PATH_IDENTITY_PREFIX@) {
        Some(identity.subrange(PATH_IDENTITY_PREFIX@.len() as int, identity.len() as int))
    } else {
        None
    }
}

/// The executable path an identity was built from, used as an icon source.
pub fn executable_path_from_identity(identity: &str) -> (r: Option<String>)
    ensures
        string_option(r) == executable_path_of(identity@),
{
    let chars = chars_of(identity);
    match strip_prefix_chars(&chars, PATH_IDENTITY_PREFIX) {
        Some(rest) => Some(string_from_chars(&rest)),
        None => None,
    }
}

/// The number of characters at the end of `v` that are neither `a` nor `b`.
pub(crate) fn trailing_run_len(v: &Vec<char>, a: char, b: char) -> (n: usize)
    ensures
        n == trailing_run(v@, a, b),
        n <= v@.len(),
{
    let mut n: usize = 0;
    proof {
        lemma_trailing_run(v@, a, b);
    }
    while n < v.len() && v[v.len() - 1 - n] != a && v[v.len() - 1 - n] != b
        invariant
            n <= v@.len(),
            n <= trailing_run(v@, a, b),
            trailing_run(v@, a, b) <= v@.len(),
            forall|k: int|
                v@.len() - trailing_run(v@, a, b) <= k < v@.len() ==> #[trigger] v@[k] != a && v@[k]
                    != b,
            trailing_run(v@, a, b) < v@.len() ==> (v@[v@.len() - trailing_run(v@, a, b) - 1] == a
                || v@[v@.len() - trailing_run(v@, a, b) - 1] == b),
        decreases v@.len() - n,
    {
        n = n + 1;
    }
    n
}

/// The last non-empty part of `v` between `!` and `.` separators.
fn last_nonempty_segment_of(v: &Vec<char>) -> (r: Option<Vec<char>>)
    ensures
        match r {
            Some(seg) => last_nonempty_segment(v@) == Some(seg@),
            None => last_nonempty_segment(v@) is None,
        },
{
    let mut end: usize = v.len();
    assert(v@.subrange(0, end as int) =~= v@);
    while end > 0 && (v[end - 1] == '!' || v[end - 1] == '.')
        invariant
            end <= v@.len(),
            last_nonempty_segment(v@) == last_nonempty_segment(v@.subrange(0, end as int)),
        decreases end,
    {
        assert(v@.subrange(0, end as int).drop_last() =~= v@.subrange(0, end - 1));
        end = end - 1;
    }
    if end == 0 {
        assert(v@.subrange(0, 0) =~= Seq::<char>::empty());
        return None;
    }
    let head = chars_between(v, 0, end);
    let n = trailing_run_len(&head, '!', '.');
    proof {
        lemma_trailing_run(head@, '!', '.');
    }
    Some(chars_between(&head, end - n, end))
}

/// The human label of an application identity.
pub fn display_name(identity: &str) -> (r: String)
    ensures
        r@ == display_name_of(identity@),
{
    if text_eq(identity, SYSTEM_SOUNDS_ID) {
        return String::from_str("System sounds");
    }
    let chars = chars_of(identity);
    if let Some(path) = strip_prefix_chars(&chars, PATH_IDENTITY_PREFIX) {
        let n = trailing_run_len(&path, '\\', '/');
        proof {
            lemma_trailing_run(path@, '\\', '/');
        }
        let file_name = chars_between(&path, path.len() - n, path.len());
        proof {
            reveal_strlit(".exe");
            reveal_strlit(".EXE");
        }
        let stem = match strip_suffix_chars(&file_name, ".exe") {
            Some(stem) => stem,
            None => match strip_suffix_chars(&file_name, ".EXE") {
                Some(stem) => stem,
                None => file_name,
            },
        };
        return string_from_chars(&stem);
    }
    if let Some(aumid) = strip_prefix_chars(&chars, AUMID_IDENTITY_PREFIX) {
        return match last_nonempty_segment_of(&aumid) {
            Some(segment) => string_from_chars(&segment),
            None => String::from_str("Application"),
        };
    }
    String::from_str("Application")
}


/// The view of an output choice: identity, name, whether it is the default.
pub open spec fn choice_view(c: OutputChoice) -> (Seq<char>, Seq<char>, bool) {
    (c.id@, c.name@, c.is_system_default)
}

/// The choices for the outputs of `s` whose default flag is `default`, in order.
pub open spec fn choices_with(s: Seq<WindowsOutput>, default: bool) -> Seq<(Seq<char>, Seq<char>, bool)>
    decreases s.len(),
{
    if s.len() == 0 {
        Seq::empty()
    } else if s.last().is_default == default {
        choices_with(s.drop_last(), default).push((s.last().id@, s.last().name@, s.last().is_default))
    } else {
        choices_with(s.drop_last(), default)
    }
}

/// Whether a row shows application `a` as the scan found it.
pub open spec fn row_shows(
    row: ApplicationRow,
    a: crate::model::ApplicationSnapshot,
    stats: ScanStats,
) -> bool {
    let g = stats.group_or_empty(a.id@);
    &&& row.application_id@ == a.id@
    &&& row.name@ == display_name_of(a.id@)
    &&& string_option(row.icon_path) == (match g.executable_path {
        Some(p) => Some(p),
        None => executable_path_of(a.id@),
    })
    &&& ascending(row.process_ids@)
    &&& row.process_ids@.to_set() == g.processes
    &&& string_option(row.selected_output_id) == crate::model::option_view(a.desired_output)
    &&& (match g.max_percent {
        Some(p) => row.volume_percent == p && row.muted == g.all_muted,
        None => row.volume_percent == 100 && !row.muted,
    })
}

/// Copies the choices for the outputs whose default flag is `default`.
fn push_choices(choices: &mut Vec<OutputChoice>, outputs: &[WindowsOutput], default: bool)
    ensures
        final(choices)@.map_values(|c: OutputChoice| choice_view(c)) == old(choices)@.map_values(
            |c: OutputChoice| choice_view(c),
        ) + choices_with(outputs@, default),
{
    let ghost start = old(choices)@.map_values(|c: OutputChoice| choice_view(c));
    let mut i: usize = 0;
    assert(outputs@.subrange(0, 0) =~= Seq::<WindowsOutput>::empty());
    assert(start + choices_with(Seq::<WindowsOutput>::empty(), default) =~= start);
    while i < outputs.len()
        invariant
            i <= outputs@.len(),
            choices@.map_values(|c: OutputChoice| choice_view(c)) == start + choices_with(
                outputs@.subrange(0, i as int),
                default,
            ),
        decreases outputs@.len() - i,
    {
        let ghost before = choices@;
        let output = &outputs[i];
        if output.is_default == default {
            let choice = OutputChoice {
                id: output.id.as_str().to_owned(),
                name: output.name.clone(),
                is_system_default: output.is_default,
            };
            choices.push(choice);
            proof {
                assert(choices@ =~= before.push(choice));
                assert(choices@.map_values(|c: OutputChoice| choice_view(c)) =~= before.map_values(
                    |c: OutputChoice| choice_view(c),
                ).push(choice_view(choice)));
            }
        }
        i = i + 1;
        proof {
            let sub = outputs@.subrange(0, i as int);
            assert(sub.drop_last() =~= outputs@.subrange(0, i - 1));
            assert(sub.last() == outputs@[i - 1]);
            assert(choices@.map_values(|c: OutputChoice| choice_view(c)) =~= start + choices_with(
                sub,
                default,
            ));
        }
    }
    assert(outputs@.subrange(0, outputs@.len() as int) =~= outputs@);
}

/// The name of the first output with identity `id`, if one is listed.
pub open spec fn output_name_for(outputs: Seq<OutputChoice>, id: Seq<char>) -> Option<Seq<char>>
    decreases outputs.len(),
{
    if outputs.len() == 0 {
        None
    } else if outputs[0].id@ == id {
        Some(outputs[0].name@)
    } else {
        output_name_for(outputs.drop_first(), id)
    }
}

/// Whether a popup shows a snapshot and the scan it came from: the first
/// applications of the snapshot, and every output with the current default
/// ones first, each part in its original order.
pub open spec fn popup_shows(
    r: PopupModel,
    snapshot: Snapshot,
    stats: ScanStats,
    outputs: Seq<WindowsOutput>,
) -> bool {
    &&& r.applications@.len() == (if snapshot.applications@.len() < MAX_VISIBLE_APPLICATIONS {
        snapshot.applications@.len() as int
    } else {
        MAX_VISIBLE_APPLICATIONS as int
    })
    &&& forall|i: int|
        0 <= i < r.applications@.len() ==> row_shows(
            #[trigger] r.applications@[i],
            snapshot.applications@[i],
            stats,
        )
    &&& r.outputs@.map_values(|c: OutputChoice| choice_view(c)) == choices_with(outputs, true)
        + choices_with(outputs, false)
}

/// Each row of a popup built from an engine's snapshot shows that
/// application's stored routing intent: the saved output when a route is
/// saved, and no selection (System default) exactly when it follows the
/// system default, whatever output it currently uses. Its volume and mute
/// state are the scan's for that application, full volume and unmuted when
/// no session volume is known.
pub proof fn law_rows_show_routing_intent(
    r: PopupModel,
    v: crate::engine::EngineView,
    snapshot: Snapshot,
    stats: ScanStats,
    outputs: Seq<WindowsOutput>,
    i: int,
)
    requires
        crate::engine::snapshot_match(v, snapshot),
        popup_shows(r, snapshot, stats, outputs),
        0 <= i < r.applications@.len(),
    ensures
        string_option(r.applications@[i].selected_output_id) == (if v.routes.contains_key(
            r.applications@[i].application_id@,
        ) {
            Some(v.routes[r.applications@[i].application_id@])
        } else {
            None
        }),
        r.applications@[i].application_id@ == snapshot.applications@[i].id@,
        stats.group_or_empty(snapshot.applications@[i].id@).max_percent matches Some(p) ==> r.applications@[i].volume_percent == p
            && r.applications@[i].muted == stats.group_or_empty(snapshot.applications@[i].id@).all_muted,
        stats.group_or_empty(snapshot.applications@[i].id@).max_percent is None ==> r.applications@[i].volume_percent == 100
            && !r.applications@[i].muted,
{
    assert(row_shows(r.applications@[i], snapshot.applications@[i], stats));
    assert(snapshot.applications@[i]@ == crate::engine::app_snapshot(v, snapshot.applications@[i]@.id));
}

impl PopupModel {
    /// Adds an application found on the taskbar, or refreshes the row that
    /// already shows it, and returns the row's position. A new row follows
    /// the system default at full volume, unmuted.
    pub fn upsert_application(
        &mut self,
        application_id: String,
        name: String,
        icon_path: Option<String>,
        process_ids: Vec<u32>,
    ) -> (index: usize)
        ensures
            index <= old(self).applications@.len(),
            final(self).outputs == old(self).outputs,
            index < old(self).applications@.len() ==> {
                &&& old(self).applications@[index as int].application_id@ == application_id@
                &&& forall|j: int|
                    0 <= j < index ==> old(self).applications@[j].application_id@ != application_id@
                &&& final(self).applications@ == old(self).applications@.update(
                    index as int,
                    (ApplicationRow {
                        application_id: old(self).applications@[index as int].application_id,
                        name: name,
                        icon_path: icon_path,
                        process_ids: process_ids,
                        selected_output_id: old(self).applications@[index as int].selected_output_id,
                        volume_percent: old(self).applications@[index as int].volume_percent,
                        muted: old(self).applications@[index as int].muted,
                    }),
                )
            },
            index == old(self).applications@.len() ==> {
                &&& forall|j: int|
                    0 <= j < old(self).applications@.len() ==> old(self).applications@[j].application_id@
                        != application_id@
                &&& final(self).applications@ == old(self).applications@.push(
                    (ApplicationRow {
                        application_id: application_id,
                        name: name,
                        icon_path: icon_path,
                        process_ids: process_ids,
                        selected_output_id: None,
                        volume_percent: 100,
                        muted: false,
                    }),
                )
            },
    {
        let mut i: usize = 0;
        while i < self.applications.len()
            invariant
                i <= self.applications@.len(),
                self.outputs == old(self).outputs,
                self.applications@ == old(self).applications@,
                forall|j: int| 0 <= j < i ==> self.applications@[j].application_id@ != application_id@,
            decreases self.applications@.len() - i,
        {
            if text_eq(self.applications[i].application_id.as_str(), application_id.as_str()) {
                let mut row = self.applications.remove(i);
                row.name = name;
                row.icon_path = icon_path;
                row.process_ids = process_ids;
                self.applications.insert(i, row);
                return i;
            }
            i = i + 1;
        }
        self.applications.push(
            ApplicationRow {
                application_id,
                name,
                icon_path,
                process_ids,
                selected_output_id: None,
                volume_percent: 100,
                muted: false,
            },
        );
        self.applications.len() - 1
    }

    /// The popup for an engine snapshot and the scan it came from: the first
    /// applications of the snapshot, and every output with the current
    /// default ones first, each part in its original order.
    pub fn from_observation(snapshot: &Snapshot, stats: &ScanStats, outputs: &[WindowsOutput]) -> (r:
        Self)
        requires
            stats.wf(),
        ensures
            popup_shows(r, *snapshot, *stats, outputs@),
    {
        let mut applications: Vec<ApplicationRow> = Vec::new();
        let mut i: usize = 0;
        while i < snapshot.applications.len() && i < MAX_VISIBLE_APPLICATIONS
            invariant
                stats.wf(),
                i <= snapshot.applications@.len(),
                i <= MAX_VISIBLE_APPLICATIONS,
                applications@.len() == i,
                forall|j: int|
                    0 <= j < i ==> row_shows(
                        #[trigger] applications@[j],
                        snapshot.applications@[j],
                        *stats,
                    ),
            decreases snapshot.applications@.len() - i,
        {
            let application = &snapshot.applications[i];
            let id = application.id.as_str();
            let volume = stats.volume_for(id);
            let icon_path = match stats.executable_path_for(id) {
                Some(p) => Some(p.to_owned()),
                None => executable_path_from_identity(id),
            };
            let row = ApplicationRow {
                volume_percent: match volume {
                    Some(v) => v.percent,
                    None => 100,
                },
                muted: match volume {
                    Some(v) => v.muted,
                    None => false,
                },
                application_id: id.to_owned(),
                name: display_name(id),
                icon_path,
                process_ids: stats.processes_for(id),
                selected_output_id: match &application.desired_output {
                    Some(output) => Some(output.as_str().to_owned()),
                    None => None,
                },
            };
            applications.push(row);
            i = i + 1;
        }
        let mut choices: Vec<OutputChoice> = Vec::new();
        assert(choices@.map_values(|c: OutputChoice| choice_view(c)) =~= Seq::<
            (Seq<char>, Seq<char>, bool),
        >::empty());
        push_choices(&mut choices, outputs, true);
        push_choices(&mut choices, outputs, false);
        PopupModel { applications, outputs: choices }
    }

    /// Where an application's audio goes, by name.
    pub open spec fn destination_label(&self, application_index: int) -> Seq<char> {
        if application_index < 0 || application_index >= self.applications@.len() {
            "System default"@
        } else {
            match self.applications@[application_index].selected_output_id {
                None => "System default"@,
                Some(selected) => match output_name_for(self.outputs@, selected@) {
                    Some(n) => n,
                    None => "Unavailable output"@,
                },
            }
        }
    }

    /// The destination of an application row in the popup's language: the
    /// `System default` and `Unavailable output` labels are translated,
    /// output names are kept.
    pub fn localized_destination_name(&self, locale: Locale, application_index: usize) -> (r: String)
        ensures
            r@ == localized_label(locale, self.destination_label(application_index as int)),
    {
        let name = self.destination_name(application_index);
        proof {
            reveal_strlit("System default");
            reveal_strlit("Unavailable output");
        }
        if text_eq(name, "System default") {
            String::from_str(text(locale, Text::SystemDefault))
        } else if text_eq(name, "Unavailable output") {
            String::from_str(text(locale, Text::UnavailableOutput))
        } else {
            String::from_str(name)
        }
    }

    /// The name of where an application's audio goes: its selected output's
    /// name, `Unavailable output` when that output is not listed, and
    /// `System default` when it follows the default or the row does not exist.
    pub fn destination_name(&self, application_index: usize) -> (r: &str)
        ensures
            r@ == self.destination_label(application_index as int),
    {
        if application_index >= self.applications.len() {
            return "System default";
        }
        let application = &self.applications[application_index];
        let selected = match &application.selected_output_id {
            Some(s) => s.as_str(),
            None => {
                return "System default";
            },
        };
        let mut k: usize = 0;
        assert(self.outputs@.skip(0) =~= self.outputs@);
        while k < self.outputs.len()
            invariant
                application_index < self.applications@.len(),
                self.applications@[application_index as int].selected_output_id is Some,
                k <= self.outputs@.len(),
                selected@ == self.applications@[application_index as int].selected_output_id->0@,
                output_name_for(self.outputs@, selected@) == output_name_for(
                    self.outputs@.skip(k as int),
                    selected@,
                ),
            decreases self.outputs@.len() - k,
        {
            if text_eq(self.outputs[k].id.as_str(), selected) {
                assert(self.outputs@.skip(k as int)[0] == self.outputs@[k as int]);
                assert(output_name_for(self.outputs@.skip(k as int), selected@) == Some(
                    self.outputs@[k as int].name@,
                ));
                return self.outputs[k].name.as_str();
            }
            assert(self.outputs@.skip(k as int).drop_first() =~= self.outputs@.skip(k + 1));
            k = k + 1;
        }
        "Unavailable output"
    }

    /// The request that routes an application's processes to an output, or
    /// back to the system default for `None`.
    pub fn route_request(&self, application_index: usize, output_id: Option<String>) -> (r: Option<
        RouteRequest,
    >)
        ensures
            application_index >= self.applications@.len() ==> r is None,
            application_index < self.applications@.len() ==> (r matches Some(request)
                && request.application_id@ == self.applications@[application_index as int].application_id@
                && request.process_ids@ == self.applications@[application_index as int].process_ids@
                && request.output_id == output_id),
    {
        if application_index >= self.applications.len() {
            return None;
        }
        let application = &self.applications[application_index];
        Some(
            RouteRequest {
                application_id: application.application_id.clone(),
                process_ids: vstd::slice::slice_to_vec(application.process_ids.as_slice()),
                output_id,
            },
        )
    }

    /// The request that sets an application's volume, at most a hundred
    /// percent, and mute state.
    pub fn volume_request(&self, application_index: usize, volume_percent: u8, muted: bool) -> (r:
        Option<VolumeRequest>)
        ensures
            application_index >= self.applications@.len() ==> r is None,
            application_index < self.applications@.len() ==> (r matches Some(request)
                && request.application_id@ == self.applications@[application_index as int].application_id@
                && request.process_ids@ == self.applications@[application_index as int].process_ids@
                && request.volume_percent == (if volume_percent <= 100 {
                volume_percent
            } else {
                100
            }) && request.muted == muted),
    {
        if application_index >= self.applications.len() {
            return None;
        }
        let application = &self.applications[application_index];
        Some(
            VolumeRequest {
                application_id: application.application_id.clone(),
                process_ids: vstd::slice::slice_to_vec(application.process_ids.as_slice()),
                volume_percent: if volume_percent <= 100 {
                    volume_percent
                } else {
                    100
                },
                muted,
            },
        )
    }
}


impl PopupModel {
    /// The route a selector choice asks for: the system default for choice
    /// zero, else the listed output before it; `None` for no such choice.
    pub fn output_for_choice(&self, choice_index: usize) -> (r: Option<Option<String>>)
        ensures
            choice_index == 0 ==> r == Some(None::<String>),
            0 < choice_index <= self.outputs@.len() ==> (r matches Some(Some(id)) && id@
                == self.outputs@[choice_index - 1].id@),
            choice_index > self.outputs@.len() ==> r is None,
    {
        if choice_index == 0 {
            Some(None)
        } else if choice_index - 1 < self.outputs.len() {
            Some(Some(self.outputs[choice_index - 1].id.clone()))
        } else {
            None
        }
    }

    /// Records the platform's answer to a route request: the row shows the
    /// new destination only when the route was accepted.
    pub fn route_answered(&mut self, application_index: usize, output_id: Option<String>, accepted: bool)
        ensures
            final(self).outputs == old(self).outputs,
            !accepted || application_index >= old(self).applications@.len() ==> final(
                self).applications@ == old(self).applications@,
            accepted && application_index < old(self).applications@.len() ==> final(
                self).applications@ == old(self).applications@.update(
                application_index as int,
                (ApplicationRow {
                    selected_output_id: output_id,
                    ..old(self).applications@[application_index as int]
                }),
            ),
    {
        if accepted && application_index < self.applications.len() {
            let mut row = self.applications.remove(application_index);
            row.selected_output_id = output_id;
            self.applications.insert(application_index, row);
        }
    }

    /// Records the platform's answer to a volume request: the row shows the
    /// new level (at most a hundred) and mute state only when accepted.
    pub fn volume_answered(
        &mut self,
        application_index: usize,
        volume_percent: u8,
        muted: bool,
        accepted: bool,
    )
        ensures
            final(self).outputs == old(self).outputs,
            !accepted || application_index >= old(self).applications@.len() ==> final(
                self).applications@ == old(self).applications@,
            accepted && application_index < old(self).applications@.len() ==> final(
                self).applications@ == old(self).applications@.update(
                application_index as int,
                (ApplicationRow {
                    volume_percent: if volume_percent <= 100 {
                        volume_percent
                    } else {
                        100
                    },
                    muted: muted,
                    ..old(self).applications@[application_index as int]
                }),
            ),
    {
        if accepted && application_index < self.applications.len() {
            let mut row = self.applications.remove(application_index);
            row.volume_percent = if volume_percent <= 100 {
                volume_percent
            } else {
                100
            };
            row.muted = muted;
            self.applications.insert(application_index, row);
        }
    }
}

} // verus!
