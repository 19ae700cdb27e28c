//! Per-application session volume: which sessions to change and how to
//! report the outcome.
//!
//! The shell walks every session of every active render endpoint, asks
//! `includes` whether the session's process is targeted, applies the level
//! and mute state, and tells the tally how each attempt went.

use vstd::prelude::*;

use crate::audio::ascending;

verus! {

/// Identifies changes initiated here, so that the audio observer can ignore
/// the session events they cause (the GUID `545f5928-f2c3-4ed0-b350-695684f45baa`).
pub const EVENT_CONTEXT: u128 = 0x545f5928_f2c3_4ed0_b350_695684f45baa;

/// The sessions to change: the processes of one application, ascending and
/// without repetition, and the requested level and mute state.
pub struct VolumeTargets {
    pub process_ids: Vec<u32>,
    /// The level, as a percentage of at most a hundred.
    pub volume_percent: u8,
    pub muted: bool,
}

/// Collects the processes whose sessions take a volume change. An empty
/// list is refused: the application has no session to change.
pub fn volume_targets(process_ids: &[u32], volume_percent: u8, muted: bool) -> (r: Result<
    VolumeTargets,
    String,
>)
    ensures
        process_ids@.len() == 0 ==> (r matches Err(m) && m@
            == "The application has no active audio sessions"@),
        process_ids@.len() > 0 ==> (r matches Ok(t) && ascending(t.process_ids@)
            && t.process_ids@.to_set() == process_ids@.to_set() && t.volume_percent == (
        if volume_percent <= 100 {
            volume_percent
        } else {
            100
        }) && t.muted == muted),
{
    if process_ids.len() == 0 {
        return Err(String::from_str("The application has no active audio sessions"));
    }
    let copy = vstd::slice::slice_to_vec(process_ids);
    let sorted = crate::audio::sorted_processes(&copy);
    Ok(
        VolumeTargets {
            process_ids: sorted,
            volume_percent: if volume_percent <= 100 {
                volume_percent
            } else {
                100
            },
            muted,
        },
    )
}

impl VolumeTargets {
    /// Whether a session of process `pid` is to be changed.
    pub fn includes(&self, pid: u32) -> (r: bool)
        ensures
            r == self.process_ids@.contains(pid),
    {
        let mut i: usize = 0;
        while i < self.process_ids.len()
            invariant
                i <= self.process_ids@.len(),
                forall|k: int| 0 <= k < i ==> self.process_ids@[k] != pid,
            decreases self.process_ids@.len() - i,
        {
            if self.process_ids[i] == pid {
                assert(self.process_ids@[i as int] == pid);
                return true;
            }
            i = i + 1;
        }
        false
    }
}

/// How the attempts to change sessions went so far.
pub struct VolumeTally {
    updated: usize,
    last_error: Option<String>,
}

impl VolumeTally {
    /// How many sessions were changed.
    pub closed spec fn updated_count(&self) -> nat {
        self.updated as nat
    }

    /// The description of the latest failure, if any.
    pub closed spec fn latest_error(&self) -> Option<Seq<char>> {
        match &self.last_error {
            Some(e) => Some(e@),
            None => None,
        }
    }

    /// How many sessions were changed.
    pub fn updated(&self) -> (n: usize)
        ensures
            n == self.updated_count(),
    {
        self.updated
    }

    /// No attempt yet.
    pub fn new() -> (t: Self)
        ensures
            t.updated_count() == 0,
            t.latest_error() is None,
    {
        VolumeTally { updated: 0, last_error: None }
    }

    /// One session took the new level and mute state.
    pub fn session_updated(&mut self)
        requires
            old(self).updated_count() < usize::MAX,
        ensures
            final(self).updated_count() == old(self).updated_count() + 1,
            final(self).latest_error() == old(self).latest_error(),
    {
        self.updated = self.updated + 1;
    }

    /// Windows refused one step for one session; `error` describes why.
    pub fn session_failed(&mut self, error: String)
        ensures
            final(self).updated_count() == old(self).updated_count(),
            final(self).latest_error() == Some(error@),
    {
        self.last_error = Some(error);
    }

    /// The outcome: success when any session changed; otherwise the latest
    /// failure, or that no session of the application is left.
    pub fn finish(self) -> (r: Result<(), String>)
        ensures
            self.updated_count() > 0 ==> r is Ok,
            self.updated_count() == 0 ==> (r matches Err(m) && m@ == match self.latest_error() {
                Some(e) => "Windows could not update the audio session: "@ + e,
                None => "The application no longer has an active audio session"@,
            }),
    {
        if self.updated > 0 {
            Ok(())
        } else {
            match self.last_error {
                Some(error) => {
                    let s = String::from_str("Windows could not update the audio session: ");
                    Err(s.concat(error.as_str()))
                },
                None => Err(String::from_str("The application no longer has an active audio session")),
            }
        }
    }
}

/// Whether a session volume event must trigger a new observation: events
/// carrying this library's own event context were caused by it.
pub fn should_signal_volume_change(event_context: Option<u128>) -> (r: bool)
    ensures
        r == (event_context != Some(EVENT_CONTEXT)),
{
    match event_context {
        Some(context) => context != EVENT_CONTEXT,
        None => true,
    }
}

} // verus!
