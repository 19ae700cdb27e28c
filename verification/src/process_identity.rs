//! The identity under which a process's audio is grouped.

use vstd::prelude::*;

use crate::identity::ApplicationId;
use crate::keyed::{StableKey, find_key, key_seq, keys_sorted, lemma_pair_map_at, lemma_pair_map_dom, pair_map, upsert};
use crate::text::{
    ascii_lower, ascii_lower_char, chars_contain, chars_eq_text, chars_of, contains_text, lex_lt,
    string_from_chars, trim, trim_chars,
};

verus! {

/// Presentation-neutral process metadata captured while the process handle is
/// available. The executable path is kept out of the shared domain model, but
/// lets the Windows shell resolve the application's real icon.
#[derive(Clone, Debug)]
pub struct ProcessIdentity {
    pub application_id: ApplicationId,
    pub executable_path: Option<String>,
}


/// An application found running, with the processes that belong to it.
#[derive(Clone, Debug)]
pub struct RunningApplication {
    pub application_id: ApplicationId,
    pub executable_path: Option<String>,
    pub process_ids: Vec<u32>,
}

/// The view of a [`RunningApplication`] without its identity.
pub struct RunningView {
    pub executable_path: Option<Seq<char>>,
    pub process_ids: Seq<u32>,
}

impl View for RunningApplication {
    type V = RunningView;

    open spec fn view(&self) -> RunningView {
        RunningView {
            executable_path: match &self.executable_path {
                Some(p) => Some(p@),
                None => None,
            },
            process_ids: self.process_ids@,
        }
    }
}

/// Whether `c` is an ASCII letter or digit.
pub open spec fn is_ascii_alnum(c: char) -> bool {
    let v = c as int;
    (48 <= v <= 57) || (65 <= v <= 90) || (97 <= v <= 122)
}

/// The ASCII letters and digits of a label, lower-cased.
pub open spec fn normalized(s: Seq<char>) -> Seq<char>
    decreases s.len(),
{
    if s.len() == 0 {
        Seq::empty()
    } else if is_ascii_alnum(s.last()) {
        normalized(s.drop_last()).push(ascii_lower(s.last()))
    } else {
        normalized(s.drop_last())
    }
}

/// Keeps the ASCII letters and digits of a label, lower-cased.
pub fn normalize_label(value: &str) -> (r: String)
    ensures
        r@ == normalized(value@),
{
    let chars = chars_of(value);
    let mut out: Vec<char> = Vec::new();
    let mut i: usize = 0;
    assert(chars@.subrange(0, 0) =~= Seq::<char>::empty());
    while i < chars.len()
        invariant
            chars@ == value@,
            i <= chars@.len(),
            out@ == normalized(chars@.subrange(0, i as int)),
        decreases chars@.len() - i,
    {
        let c = chars[i];
        let v = c as u32;
        let alnum = (48 <= v && v <= 57) || (65 <= v && v <= 90) || (97 <= v && v <= 122);
        if alnum {
            out.push(ascii_lower_char(c));
        }
        i = i + 1;
        assert(chars@.subrange(0, i as int).drop_last() =~= chars@.subrange(0, i - 1));
    }
    assert(chars@.subrange(0, chars@.len() as int) =~= chars@);
    string_from_chars(&out)
}

/// Whether a normalized taskbar label names the application whose executable
/// has this stem: one contains the other, or the stem is a known alias.
pub open spec fn labels_match_spec(display_name: Seq<char>, executable_stem: Seq<char>) -> bool {
    let e = normalized(executable_stem);
    e.len() > 0 && (display_name == e || contains_text(display_name, e) || contains_text(
        e,
        display_name,
    ) || (e == "chrome"@ && contains_text(display_name, "googlechrome"@)) || (e == "msedge"@
        && contains_text(display_name, "microsoftedge"@)) || (e == "code"@ && (contains_text(
        display_name,
        "visualstudiocode"@,
    ) || contains_text(display_name, "vscode"@))) || (e == "explorer"@ && contains_text(
        display_name,
        "fileexplorer"@,
    )))
}

/// Whether `haystack` contains the text `needle`.
fn contains_str(haystack: &Vec<char>, needle: &str) -> (r: bool)
    ensures
        r == contains_text(haystack@, needle@),
{
    let n = chars_of(needle);
    chars_contain(haystack, &n)
}

/// Whether a normalized taskbar label names the application whose executable
/// has this stem.
pub fn labels_match(display_name: &str, executable_stem: &str) -> (r: bool)
    ensures
        r == labels_match_spec(display_name@, executable_stem@),
{
    let stem = normalize_label(executable_stem);
    let e = chars_of(stem.as_str());
    if e.len() == 0 {
        return false;
    }
    let d = chars_of(display_name);
    proof {
        reveal_strlit("chrome");
        reveal_strlit("msedge");
        reveal_strlit("code");
        reveal_strlit("explorer");
    }
    if chars_eq_text(&e, display_name) || chars_contain(&d, &e) || chars_contain(&e, &d) {
        return true;
    }
    assert("chrome"@[0] != "msedge"@[0]);
    if chars_eq_text(&e, "chrome") {
        contains_str(&d, "googlechrome")
    } else if chars_eq_text(&e, "msedge") {
        contains_str(&d, "microsoftedge")
    } else if chars_eq_text(&e, "code") {
        contains_str(&d, "visualstudiocode") || contains_str(&d, "vscode")
    } else if chars_eq_text(&e, "explorer") {
        contains_str(&d, "fileexplorer")
    } else {
        false
    }
}

/// Whether a normalized taskbar label occurs in an executable's normalized path.
pub fn labels_match_path(display_name: &str, executable_path: &str) -> (r: bool)
    ensures
        r == contains_text(normalized(executable_path@), display_name@),
{
    let path = normalize_label(executable_path);
    let p = chars_of(path.as_str());
    contains_str(&p, display_name)
}

/// Whether an executable is one whose install path may carry the brand of
/// the application shown on the taskbar.
pub fn may_have_branded_install_path(executable_stem: &str) -> (r: bool)
    ensures
        r == (normalized(executable_stem@) == "applicationframehost"@ || normalized(executable_stem@)
            == "chrome"@ || normalized(executable_stem@) == "msedge"@),
{
    let stem = normalize_label(executable_stem);
    let e = chars_of(stem.as_str());
    chars_eq_text(&e, "applicationframehost") || chars_eq_text(&e, "chrome") || chars_eq_text(
        &e,
        "msedge",
    )
}

/// A path with forward slashes written as backslashes.
pub open spec fn backslashed(p: Seq<char>) -> Seq<char> {
    p.map_values(|c: char| if c == '/' { '\\' } else { c })
}

/// The identity of a process: its packaged application ID when it has one,
/// else its executable path with backslash separators, case preserved.
pub open spec fn application_id_of(aumid: Option<Seq<char>>, executable_path: Option<Seq<char>>) -> Option<
    Seq<char>,
> {
    if aumid matches Some(a) && a.len() > 0 {
        Some("windows:aumid:"@ + aumid.unwrap())
    } else if executable_path matches Some(p) && p.len() > 0 {
        Some("windows:path:"@ + backslashed(executable_path.unwrap()))
    } else {
        None
    }
}

/// A process's identity does not depend on the separator style of its
/// executable path, and a packaged application ID takes precedence over the
/// path whatever the path is.
pub proof fn law_identity_is_stable(aumid: Option<Seq<char>>, path: Seq<char>, other: Option<Seq<char>>)
    ensures
        application_id_of(None, Some(backslashed(path))) == application_id_of(None, Some(path)),
        (aumid matches Some(a) && a.len() > 0) ==> application_id_of(aumid, Some(path))
            == application_id_of(aumid, other),
{
    assert(backslashed(backslashed(path)) =~= backslashed(path));
}

/// Builds the stable identity of a process from what Windows reported.
pub fn build_application_id(aumid: Option<&str>, executable_path: Option<&str>) -> (r: Option<
    ApplicationId,
>)
    ensures
        r matches Some(id) ==> application_id_of(
            crate::routing::text_option(aumid),
            crate::routing::text_option(executable_path),
        ) == Some(id@),
        r is None ==> application_id_of(
            crate::routing::text_option(aumid),
            crate::routing::text_option(executable_path),
        ) is None,
{
    if let Some(a) = aumid {
        if !a.is_empty() {
            let s = String::from_str("windows:aumid:").concat(a);
            proof {
                reveal_strlit("windows:aumid:");
            }
            return match ApplicationId::new(s) {
                Ok(id) => Some(id),
                Err(_) => None,
            };
        }
    }
    let p = executable_path?;
    if p.is_empty() {
        return None;
    }
    let chars = chars_of(p);
    let mut out: Vec<char> = Vec::new();
    let mut i: usize = 0;
    while i < chars.len()
        invariant
            chars@ == p@,
            i <= chars@.len(),
            out@ == backslashed(chars@.subrange(0, i as int)),
        decreases chars@.len() - i,
    {
        let c = chars[i];
        out.push(if c == '/' { '\\' } else { c });
        i = i + 1;
        assert(out@ =~= backslashed(chars@.subrange(0, i as int)));
    }
    assert(chars@.subrange(0, chars@.len() as int) =~= chars@);
    let s = String::from_str("windows:path:").concat(string_from_chars(&out).as_str());
    proof {
        reveal_strlit("windows:path:");
    }
    match ApplicationId::new(s) {
        Ok(id) => Some(id),
        Err(_) => None,
    }
}

/// The application user model ID a taskbar button names: the text after an
/// `Appid:` prefix when there is one, without surrounding white space.
pub open spec fn aumid_from_automation_spec(value: Seq<char>) -> Seq<char> {
    let p = "Appid:"@;
    if value.len() >= p.len() && value.subrange(0, p.len() as int) == p {
        trim(value.subrange(p.len() as int, value.len() as int))
    } else {
        trim(value)
    }
}

/// Strips the UI Automation `Appid:` prefix and surrounding white space.
pub fn aumid_from_automation(value: &str) -> (r: String)
    ensures
        r@ == aumid_from_automation_spec(value@),
{
    let chars = chars_of(value);
    let prefix = chars_of("Appid:");
    let mut has_prefix = chars.len() >= prefix.len();
    let mut i: usize = 0;
    while has_prefix && i < prefix.len()
        invariant
            chars@ == value@,
            prefix@ == "Appid:"@,
            has_prefix ==> chars@.len() >= prefix@.len(),
            i <= prefix@.len(),
            has_prefix ==> forall|k: int| 0 <= k < i ==> chars@[k] == prefix@[k],
            !has_prefix ==> !(chars@.len() >= prefix@.len() && chars@.subrange(0, prefix@.len() as int)
                == prefix@),
        decreases prefix@.len() - i + (if has_prefix {
            1int
        } else {
            0int
        }),
    {
        if chars[i] != prefix[i] {
            has_prefix = false;
            assert(chars@.subrange(0, prefix@.len() as int)[i as int] != prefix@[i as int]);
        } else {
            i = i + 1;
        }
    }
    if has_prefix {
        assert(chars@.subrange(0, prefix@.len() as int) =~= prefix@);
        let mut rest: Vec<char> = Vec::new();
        let mut k: usize = prefix.len();
        while k < chars.len()
            invariant
                prefix@.len() <= k <= chars@.len(),
                rest@ == chars@.subrange(prefix@.len() as int, k as int),
            decreases chars@.len() - k,
        {
            rest.push(chars[k]);
            k = k + 1;
            assert(rest@ =~= chars@.subrange(prefix@.len() as int, k as int));
        }
        let rest_text = string_from_chars(&rest);
        string_from_chars(&trim_chars(rest_text.as_str()))
    } else {
        string_from_chars(&trim_chars(value))
    }
}


/// Whether a process seen in the process snapshot may belong to the
/// application a normalized taskbar label names, before its identity is
/// known: `(its executable matches, its identity must be resolved)`.
pub fn snapshot_entry_plan(display_name: &str, executable_stem: &str) -> (r: (bool, bool))
    ensures
        r.0 == labels_match_spec(display_name@, executable_stem@),
        r.1 == (r.0 || normalized(executable_stem@) == "applicationframehost"@ || normalized(
            executable_stem@,
        ) == "chrome"@ || normalized(executable_stem@) == "msedge"@),
{
    let executable_matches = labels_match(display_name, executable_stem);
    let resolve = executable_matches || may_have_branded_install_path(executable_stem);
    (executable_matches, resolve)
}

/// Whether a resolved process belongs to the search: its executable matched,
/// or the label occurs in its executable path.
pub fn snapshot_entry_matches(
    display_name: &str,
    executable_matches: bool,
    executable_path: Option<&str>,
) -> (r: bool)
    ensures
        r == (executable_matches || (executable_path matches Some(p) && contains_text(
            normalized(p@),
            display_name@,
        ))),
{
    if executable_matches {
        return true;
    }
    match executable_path {
        Some(p) => labels_match_path(display_name, p),
        None => false,
    }
}

/// The running applications a search found so far, by identity.
pub struct ApplicationSearch {
    matches: Vec<(ApplicationId, RunningApplication)>,
}

/// One more matching process in a search: added to its application, which
/// is created with the identity's executable path when it is new.
pub open spec fn found_after(
    found: Map<Seq<char>, RunningView>,
    identity: ProcessIdentity,
    pid: u32,
) -> Map<Seq<char>, RunningView> {
    let k = identity.application_id@;
    found.insert(
        k,
        if found.contains_key(k) {
            RunningView {
                executable_path: found[k].executable_path,
                process_ids: found[k].process_ids.push(pid),
            }
        } else {
            RunningView {
                executable_path: match identity.executable_path {
                    Some(p) => Some(p@),
                    None => None,
                },
                process_ids: seq![pid],
            }
        },
    )
}

impl ApplicationSearch {
    /// The applications found, by identity.
    pub closed spec fn found(&self) -> Map<Seq<char>, RunningView> {
        pair_map(self.matches@)
    }

    /// The invariant: one entry per identity, in identity order.
    pub closed spec fn wf(&self) -> bool {
        keys_sorted(self.matches@)
    }

    /// A search that has found nothing.
    pub fn new() -> (s: Self)
        ensures
            s.wf(),
            s.found() == Map::<Seq<char>, RunningView>::empty(),
    {
        let s = ApplicationSearch { matches: Vec::new() };
        assert(s.found() =~= Map::<Seq<char>, RunningView>::empty());
        s
    }

    /// Records a matching process and the identity Windows resolved for it.
    pub fn add(&mut self, identity: ProcessIdentity, pid: u32)
        requires
            old(self).wf(),
        ensures
            final(self).wf(),
            final(self).found() == found_after(old(self).found(), identity, pid),
    {
        let ghost id = identity;
        let ProcessIdentity { application_id, executable_path } = identity;
        let entry = match find_key(&self.matches, application_id.as_str()) {
            Some(i) => {
                proof {
                    lemma_pair_map_at(self.matches@, i as int);
                }
                let known = &self.matches[i].1;
                let mut pids = vstd::slice::slice_to_vec(known.process_ids.as_slice());
                pids.push(pid);
                RunningApplication {
                    application_id: known.application_id.duplicate(),
                    executable_path: match &known.executable_path {
                        Some(p) => Some(p.clone()),
                        None => None,
                    },
                    process_ids: pids,
                }
            },
            None => {
                proof {
                    lemma_pair_map_dom(self.matches@);
                }
                let mut pids: Vec<u32> = Vec::new();
                pids.push(pid);
                RunningApplication {
                    application_id: application_id.duplicate(),
                    executable_path,
                    process_ids: pids,
                }
            },
        };
        upsert(&mut self.matches, application_id, entry);
        assert(self.found() =~= found_after(old(self).found(), id, pid));
    }

    /// The application whose identity comes first, if any was found.
    pub fn first(self) -> (r: Option<RunningApplication>)
        requires
            self.wf(),
        ensures
            self.found() == Map::<Seq<char>, RunningView>::empty() <==> r is None,
            r matches Some(app) ==> self.found().contains_key(app.application_id@) && self.found()[app.application_id@]
                == app@ && forall|k: Seq<char>| #[trigger] self.found().contains_key(k) ==> k
                == app.application_id@ || lex_lt(app.application_id@, k),
    {
        proof {
            lemma_pair_map_dom(self.matches@);
        }
        let mut matches = self.matches;
        if matches.len() == 0 {
            assert(pair_map(matches@) =~= Map::<Seq<char>, RunningView>::empty());
            return None;
        }
        proof {
            lemma_pair_map_at(matches@, 0);
            assert(pair_map(matches@).dom().contains(matches@[0].0@));
            assert forall|k: Seq<char>| #[trigger] pair_map(matches@).contains_key(k) implies k
                == matches@[0].0@ || lex_lt(matches@[0].0@, k) by {
                let j = choose|j: int| 0 <= j < matches@.len() && #[trigger] matches@[j].key() == k;
                if j > 0 {
                    assert(lex_lt(matches@[0].key(), matches@[j].key()));
                }
            }
        }
        let (key, app) = matches.remove(0);
        let mut app = app;
        app.application_id = key;
        Some(app)
    }
}

} // verus!
