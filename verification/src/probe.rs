//! The audio-session probe: a command-line diagnostic that lists the render
//! devices and their sessions, optionally changes one process's volume or
//! mute state, and optionally stays to print device and session events.
//!
//! This module holds the probe's decisions: how its arguments are read, how
//! session states and process images are named, and how printed values are
//! kept on one line. The shell makes the COM calls and prints.

use vstd::prelude::*;

use crate::popup::{last_segment, trailing_run_len};
use crate::text::{chars_between, chars_of, parse_unsigned, parsed_unsigned, string_from_chars, text_eq};

verus! {

/// How the probe is invoked.
pub const PROBE_USAGE: &'static str = "Usage: audiorouter-rust [--hold 0..3600] [--set-volume PID 0..100] [--mute PID on|off]";

/// The longest time, in seconds, the probe stays to print events.
pub const MAX_HOLD_SECONDS: u64 = 3600;

/// The message refusing volume and mute changes aimed at different processes.
pub open spec fn pid_mismatch_message() -> Seq<char> {
    "Volume and mute must target the same PID.\n"@ + PROBE_USAGE@
}

/// What the probe was asked to do.
pub struct ProbeOptions {
    /// Seconds to stay and print events after the listing.
    pub hold: u64,
    /// The process whose sessions are changed.
    pub pid: Option<u32>,
    /// The text of the requested volume percentage; the shell reads it as a
    /// number and scales it to the session's level.
    pub volume_percent: Option<String>,
    /// The requested mute state.
    pub muted: Option<bool>,
}

/// The contents of [`ProbeOptions`].
pub struct ProbeRequest {
    pub hold: u64,
    pub pid: Option<u32>,
    pub volume_percent: Option<Seq<char>>,
    pub muted: Option<bool>,
}

impl View for ProbeOptions {
    type V = ProbeRequest;

    open spec fn view(&self) -> ProbeRequest {
        ProbeRequest {
            hold: self.hold,
            pid: self.pid,
            volume_percent: match self.volume_percent {
                Some(s) => Some(s@),
                None => None,
            },
            muted: self.muted,
        }
    }
}

/// Nothing requested: list once and leave.
pub open spec fn no_request() -> ProbeRequest {
    ProbeRequest { hold: 0, pid: None, volume_percent: None, muted: None }
}

/// The process a change names, when it agrees with the one named before.
pub open spec fn same_pid(request: ProbeRequest, text: Seq<char>) -> Result<u32, Seq<char>> {
    match parsed_unsigned(text, u32::MAX as int) {
        None => Err(PROBE_USAGE@),
        Some(pid) => if request.pid matches Some(p) && p != pid {
            Err(pid_mismatch_message())
        } else {
            Ok(pid as u32)
        },
    }
}

/// Reads the arguments from position `i` on, after `request` was read from
/// those before. `percent_accepted[k]` tells whether argument `k` reads as a
/// percentage from 0 to 100.
pub open spec fn probe_request_from(
    args: Seq<Seq<char>>,
    percent_accepted: Seq<bool>,
    i: int,
    request: ProbeRequest,
) -> Result<ProbeRequest, Seq<char>>
    decreases args.len() - i,
{
    if i >= args.len() || i < 0 {
        Ok(request)
    } else if args[i] == "--hold"@ && i + 1 < args.len() {
        match parsed_unsigned(args[i + 1], u64::MAX as int) {
            Some(h) => if h <= MAX_HOLD_SECONDS {
                probe_request_from(args, percent_accepted, i + 2, ProbeRequest { hold: h as u64, ..request })
            } else {
                Err(PROBE_USAGE@)
            },
            None => Err(PROBE_USAGE@),
        }
    } else if args[i] == "--set-volume"@ && i + 2 < args.len() {
        match same_pid(request, args[i + 1]) {
            Err(m) => Err(m),
            Ok(pid) => if percent_accepted[i + 2] {
                probe_request_from(
                    args,
                    percent_accepted,
                    i + 3,
                    ProbeRequest { pid: Some(pid), volume_percent: Some(args[i + 2]), ..request },
                )
            } else {
                Err(PROBE_USAGE@)
            },
        }
    } else if args[i] == "--mute"@ && i + 2 < args.len() {
        match same_pid(request, args[i + 1]) {
            Err(m) => Err(m),
            Ok(pid) => if args[i + 2] == "on"@ {
                probe_request_from(
                    args,
                    percent_accepted,
                    i + 3,
                    ProbeRequest { pid: Some(pid), muted: Some(true), ..request },
                )
            } else if args[i + 2] == "off"@ {
                probe_request_from(
                    args,
                    percent_accepted,
                    i + 3,
                    ProbeRequest { pid: Some(pid), muted: Some(false), ..request },
                )
            } else {
                Err(PROBE_USAGE@)
            },
        }
    } else {
        Err(PROBE_USAGE@)
    }
}

/// The characters of each argument.
pub open spec fn argument_texts(args: Seq<String>) -> Seq<Seq<char>> {
    args.map_values(|a: String| a@)
}

/// Checks that a change names the same process as an earlier one, and
/// records it.
fn ensure_same_pid(current: &mut Option<u32>, next: u32) -> (r: Result<(), String>)
    ensures
        (*old(current) matches Some(p) && p != next) ==> (r matches Err(m) && m@ == pid_mismatch_message()
            && *final(current) == *old(current)),
        !(*old(current) matches Some(p) && p != next) ==> (r is Ok && *final(current) == Some(next)),
{
    if let Some(pid) = *current {
        if pid != next {
            let s = String::from_str("Volume and mute must target the same PID.\n");
            return Err(s.concat(PROBE_USAGE));
        }
    }
    *current = Some(next);
    Ok(())
}

/// The usage text.
fn usage() -> (r: String)
    ensures
        r@ == PROBE_USAGE@,
{
    String::from_str(PROBE_USAGE)
}

/// Reads the probe's arguments (the program name excluded):
/// `--hold SECONDS` (at most an hour), `--set-volume PID PERCENT` and
/// `--mute PID on|off`, the last two naming one process. A later setting
/// replaces an earlier one. `percent_accepted[k]` tells whether `args[k]`
/// reads as a percentage from 0 to 100, which the shell judges.
pub fn parse_options(args: &[String], percent_accepted: &[bool]) -> (r: Result<ProbeOptions, String>)
    requires
        args@.len() == percent_accepted@.len(),
    ensures
        match probe_request_from(argument_texts(args@), percent_accepted@, 0, no_request()) {
            Ok(request) => r matches Ok(options) && options@ == request,
            Err(message) => r matches Err(m) && m@ == message,
        },
{
    let ghost texts = argument_texts(args@);
    let mut options = ProbeOptions { hold: 0, pid: None, volume_percent: None, muted: None };
    let mut index: usize = 0;
    while index < args.len()
        invariant
            texts == argument_texts(args@),
            args@.len() == percent_accepted@.len(),
            index <= args@.len(),
            probe_request_from(texts, percent_accepted@, 0, no_request()) == probe_request_from(
                texts,
                percent_accepted@,
                index as int,
                options@,
            ),
        decreases args@.len() - index,
    {
        let argument = args[index].as_str();
        assert(texts[index as int] == argument@);
        proof {
            reveal_strlit("--hold");
            reveal_strlit("--set-volume");
            reveal_strlit("--mute");
        }
        if text_eq(argument, "--hold") && args.len() - index > 1 {
            assert(texts[index + 1] == args@[index + 1]@);
            match parse_unsigned(args[index + 1].as_str(), u64::MAX) {
                Some(hold) => {
                    if hold <= MAX_HOLD_SECONDS {
                        options.hold = hold;
                        index = index + 2;
                    } else {
                        return Err(usage());
                    }
                },
                None => {
                    return Err(usage());
                },
            }
        } else if text_eq(argument, "--set-volume") && args.len() - index > 2 {
            assert("--set-volume"@ != "--hold"@);
            assert(texts[index + 1] == args@[index + 1]@);
            assert(texts[index + 2] == args@[index + 2]@);
            let pid = match parse_unsigned(args[index + 1].as_str(), 0xFFFF_FFFF) {
                Some(p) => p as u32,
                None => {
                    return Err(usage());
                },
            };
            match ensure_same_pid(&mut options.pid, pid) {
                Err(m) => {
                    return Err(m);
                },
                Ok(()) => {},
            }
            if !percent_accepted[index + 2] {
                return Err(usage());
            }
            options.volume_percent = Some(args[index + 2].clone());
            index = index + 3;
        } else if text_eq(argument, "--mute") && args.len() - index > 2 {
            assert("--mute"@ != "--hold"@);
            assert("--mute"@ != "--set-volume"@);
            assert(texts[index + 1] == args@[index + 1]@);
            assert(texts[index + 2] == args@[index + 2]@);
            let pid = match parse_unsigned(args[index + 1].as_str(), 0xFFFF_FFFF) {
                Some(p) => p as u32,
                None => {
                    return Err(usage());
                },
            };
            match ensure_same_pid(&mut options.pid, pid) {
                Err(m) => {
                    return Err(m);
                },
                Ok(()) => {},
            }
            proof {
                reveal_strlit("on");
                reveal_strlit("off");
            }
            let state = args[index + 2].as_str();
            if text_eq(state, "on") {
                options.muted = Some(true);
            } else if text_eq(state, "off") {
                options.muted = Some(false);
            } else {
                return Err(usage());
            }
            index = index + 3;
        } else {
            return Err(usage());
        }
    }
    Ok(options)
}

/// The name of an audio session state.
pub open spec fn state_label(state: i32) -> Seq<char> {
    if state == 0 {
        "inactive"@
    } else if state == 1 {
        "active"@
    } else if state == 2 {
        "expired"@
    } else {
        "unknown"@
    }
}

/// Names an audio session state.
pub fn state_name(state: i32) -> (r: &'static str)
    ensures
        r@ == state_label(state),
{
    if state == 0 {
        "inactive"
    } else if state == 1 {
        "active"
    } else if state == 2 {
        "expired"
    } else {
        "unknown"
    }
}

/// A value with spaces and line breaks replaced by underscores, so that it
/// stays one field of a printed line.
pub open spec fn escaped(value: Seq<char>) -> Seq<char> {
    value.map_values(|c: char| if c == ' ' || c == '\r' || c == '\n' { '_' } else { c })
}

/// Keeps a printed value in one field.
pub fn escape(value: &str) -> (r: String)
    ensures
        r@ == escaped(value@),
{
    let chars = chars_of(value);
    let mut out: Vec<char> = Vec::new();
    let mut i: usize = 0;
    while i < chars.len()
        invariant
            chars@ == value@,
            i <= chars@.len(),
            out@ == escaped(value@).subrange(0, i as int),
        decreases chars@.len() - i,
    {
        let c = chars[i];
        out.push(if c == ' ' || c == '\r' || c == '\n' { '_' } else { c });
        i = i + 1;
        assert(out@ =~= escaped(value@).subrange(0, i as int));
    }
    assert(escaped(value@).subrange(0, chars@.len() as int) =~= escaped(value@));
    string_from_chars(&out)
}

/// The name printed for a session's process: the system-sounds session for
/// process 0, else the file name of its image path, or a placeholder when
/// the path could not be read.
pub open spec fn process_label_of(pid: u32, image_path: Option<Seq<char>>) -> Seq<char> {
    if pid == 0 {
        "system-sounds"@
    } else {
        match image_path {
            None => "(unavailable)"@,
            Some(path) => last_segment(path, '\\', '/'),
        }
    }
}

/// Names a session's process from its image path, if one could be read.
pub fn process_label(pid: u32, image_path: Option<&str>) -> (r: String)
    ensures
        r@ == process_label_of(
            pid,
            match image_path {
                Some(p) => Some(p@),
                None => None,
            },
        ),
{
    if pid == 0 {
        return String::from_str("system-sounds");
    }
    match image_path {
        None => String::from_str("(unavailable)"),
        Some(path) => {
            let chars = chars_of(path);
            let n = trailing_run_len(&chars, '\\', '/');
            string_from_chars(&chars_between(&chars, chars.len() - n, chars.len()))
        },
    }
}

} // verus!
