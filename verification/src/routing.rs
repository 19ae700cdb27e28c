//! Persistent per-process output routing through the Windows audio policy.
//!
//! Windows keeps an explicit render endpoint per process and audio role. The
//! calls that read and write it are made by the shell around this library;
//! here stand the validation of a request, the device paths exchanged with
//! Windows, and the decisions taken on each answer, as step functions that
//! the caller drives one assignment at a time.

use vstd::prelude::*;

use crate::text::{
    ascii_lower, ascii_lower_char, chars_of, decimal, decimal_text, eq_ignore_ascii_case,
    hex_digits, string_from_chars,
};

verus! {

/// Windows' `E_INVALIDARG`, reported for a process that has no audio session.
pub const E_INVALIDARG: i32 = -2147024809i32;

/// Windows' `RPC_E_CHANGED_MODE`: the thread already owns another apartment.
pub const RPC_E_CHANGED_MODE: i32 = -2147417850i32;

/// The Core Audio data-flow value of render endpoints.
pub const E_RENDER: i32 = 0;

/// The Core Audio role value of console streams.
pub const E_CONSOLE: i32 = 0;

/// The Core Audio role value of multimedia streams.
pub const E_MULTIMEDIA: i32 = 1;

/// The start of the interface path of an MMDevice render endpoint.
pub const DEVICE_PATH_PREFIX: &'static str = "\\\\?\\SWD#MMDEVAPI#";

/// The end of the interface path of an MMDevice render endpoint.
pub const DEVICE_PATH_SUFFIX: &'static str = "#{e6327cad-dcec-4949-ae8a-991e976a79d2}";

/// The Windows audio roles updated for each routed process.
#[derive(Clone, Copy, Debug, PartialEq, Eq, Structural)]
pub enum AudioRole {
    Multimedia,
    Console,
}

/// A failure while applying or reading a Windows per-process output selection.
/// Codes are Windows `HRESULT` values.
#[derive(Clone, Copy, Debug, PartialEq, Eq, Structural)]
pub enum RoutingError {
    /// The caller supplied no process to route.
    NoProcesses,
    /// Process ID zero is not a routable application process.
    InvalidProcessId,
    /// A non-default output selection contained an empty MMDevice ID.
    InvalidOutputDeviceId,
    /// The Windows Runtime could not be initialized on the calling thread.
    RuntimeInitialization { code: i32 },
    /// Neither known version of the private activation factory was available.
    ActivationFactoryUnavailable { current_code: i32, downlevel_code: i32 },
    /// Windows rejected one process/role assignment.
    AssignmentFailed { process_id: u32, role: AudioRole, code: i32 },
    /// Windows could not return a persisted per-process route.
    ReadFailed { process_id: u32, role: AudioRole, code: i32 },
    /// Different processes or audio roles reported different explicit outputs.
    InconsistentAssignments,
}

/// The role assigned at a position of the per-process sequence: multimedia first.
pub open spec fn role_at(k: int) -> AudioRole {
    if k % 2 == 0 {
        AudioRole::Multimedia
    } else {
        AudioRole::Console
    }
}

/// The name of a role in messages.
pub open spec fn role_label(role: AudioRole) -> Seq<char> {
    match role {
        AudioRole::Multimedia => "multimedia"@,
        AudioRole::Console => "console"@,
    }
}

impl AudioRole {
    /// The Core Audio `ERole` value of this role.
    pub fn as_abi(self) -> (v: i32)
        ensures
            v == match self {
                AudioRole::Multimedia => E_MULTIMEDIA,
                AudioRole::Console => E_CONSOLE,
            },
    {
        match self {
            AudioRole::Multimedia => E_MULTIMEDIA,
            AudioRole::Console => E_CONSOLE,
        }
    }

    /// The name of this role in messages.
    pub fn label(self) -> (s: &'static str)
        ensures
            s@ == role_label(self),
    {
        match self {
            AudioRole::Multimedia => "multimedia",
            AudioRole::Console => "console",
        }
    }
}

/// Whether a list of process IDs can be routed, as an error when it cannot.
pub open spec fn processes_error(process_ids: Seq<u32>) -> Option<RoutingError> {
    if process_ids.len() == 0 {
        Some(RoutingError::NoProcesses)
    } else if process_ids.contains(0u32) {
        Some(RoutingError::InvalidProcessId)
    } else {
        None
    }
}

/// Whether a routing request is acceptable, as an error when it is not.
pub open spec fn request_error(process_ids: Seq<u32>, output: Option<Seq<char>>) -> Option<
    RoutingError,
> {
    if processes_error(process_ids) is Some {
        processes_error(process_ids)
    } else if output == Some(Seq::<char>::empty()) {
        Some(RoutingError::InvalidOutputDeviceId)
    } else {
        None
    }
}

/// The view of an optional text.
pub open spec fn text_option(o: Option<&str>) -> Option<Seq<char>> {
    match o {
        Some(s) => Some(s@),
        None => None,
    }
}

/// Rejects an empty process list or process ID zero.
pub fn validate_processes(process_ids: &[u32]) -> (r: Result<(), RoutingError>)
    ensures
        r == (match processes_error(process_ids@) {
            Some(e) => Err::<(), RoutingError>(e),
            None => Ok(()),
        }),
{
    if process_ids.len() == 0 {
        return Err(RoutingError::NoProcesses);
    }
    let mut i: usize = 0;
    while i < process_ids.len()
        invariant
            i <= process_ids@.len(),
            forall|k: int| 0 <= k < i ==> process_ids@[k] != 0,
        decreases process_ids@.len() - i,
    {
        if process_ids[i] == 0 {
            assert(process_ids@[i as int] == 0u32);
            return Err(RoutingError::InvalidProcessId);
        }
        i = i + 1;
    }
    assert(!process_ids@.contains(0u32));
    Ok(())
}

/// Validates the processes of a request and rejects an empty explicit output.
pub fn validate_request(process_ids: &[u32], output_device_id: Option<&str>) -> (r: Result<
    (),
    RoutingError,
>)
    ensures
        r == (match request_error(process_ids@, text_option(output_device_id)) {
            Some(e) => Err::<(), RoutingError>(e),
            None => Ok(()),
        }),
{
    validate_processes(process_ids)?;
    match output_device_id {
        Some(id) => {
            if id.is_empty() {
                assert(id@ =~= Seq::<char>::empty());
                return Err(RoutingError::InvalidOutputDeviceId);
            }
            Ok(())
        },
        None => Ok(()),
    }
}

/// The interface path Windows expects for a raw MMDevice ID.
pub open spec fn device_path_of(raw_device_id: Seq<char>) -> Seq<char> {
    DEVICE_PATH_PREFIX@ + raw_device_id + DEVICE_PATH_SUFFIX@
}

/// Builds the render-endpoint interface path without changing the raw ID.
pub fn render_device_path(raw_device_id: &str) -> (path: String)
    ensures
        path@ == device_path_of(raw_device_id@),
{
    let path = String::from_str(DEVICE_PATH_PREFIX);
    let path = path.concat(raw_device_id);
    path.concat(DEVICE_PATH_SUFFIX)
}

/// A render-endpoint path built from a nonempty raw MMDevice ID gives that ID
/// back.
pub proof fn law_device_path_round_trip(raw_device_id: Seq<char>)
    requires
        raw_device_id.len() > 0,
    ensures
        raw_device_id_of(device_path_of(raw_device_id)) == Some(raw_device_id),
{
    let p = DEVICE_PATH_PREFIX@;
    let q = DEVICE_PATH_SUFFIX@;
    let path = device_path_of(raw_device_id);
    assert(path.subrange(0, p.len() as int) =~= p);
    assert(path.subrange(path.len() - q.len(), path.len() as int) =~= q);
    assert(path.subrange(p.len() as int, path.len() - q.len()) =~= raw_device_id);
}

/// The raw MMDevice ID inside a render-endpoint interface path, whose prefix
/// and suffix are compared without ASCII case.
pub open spec fn raw_device_id_of(path: Seq<char>) -> Option<Seq<char>> {
    let p = DEVICE_PATH_PREFIX@.len();
    let q = DEVICE_PATH_SUFFIX@.len();
    if path.len() > p + q && eq_ignore_ascii_case(path.subrange(0, p as int), DEVICE_PATH_PREFIX@)
        && eq_ignore_ascii_case(path.subrange(path.len() - q, path.len() as int), DEVICE_PATH_SUFFIX@) {
        Some(path.subrange(p as int, path.len() - q))
    } else {
        None
    }
}

/// Whether `v[start..start + pattern.len()]` equals `pattern` without ASCII case.
fn matches_ignoring_case_at(v: &Vec<char>, start: usize, pattern: &Vec<char>) -> (r: bool)
    requires
        start + pattern@.len() <= v@.len(),
    ensures
        r == eq_ignore_ascii_case(
            v@.subrange(start as int, start + pattern@.len()),
            pattern@,
        ),
{
    let mut i: usize = 0;
    while i < pattern.len()
        invariant
            start + pattern@.len() <= v.len(),
            i <= pattern@.len(),
            forall|k: int|
                0 <= k < i ==> ascii_lower(#[trigger] v@[start + k]) == ascii_lower(pattern@[k]),
        decreases pattern@.len() - i,
    {
        if ascii_lower_char(v[start + i]) != ascii_lower_char(pattern[i]) {
            assert(ascii_lower(v@.subrange(start as int, start + pattern@.len())[i as int])
                != ascii_lower(pattern@[i as int]));
            return false;
        }
        i = i + 1;
    }
    let ghost sub = v@.subrange(start as int, start + pattern@.len());
    assert forall|k: int| 0 <= k < sub.len() implies ascii_lower(#[trigger] sub[k]) == ascii_lower(
        pattern@[k],
    ) by {
        assert(sub[k] == v@[start + k]);
    }
    true
}

/// The characters of `v` from `from` up to `to`, as owned text.
fn slice_text(v: &Vec<char>, from: usize, to: usize) -> (s: String)
    requires
        from <= to <= v@.len(),
    ensures
        s@ == v@.subrange(from as int, to as int),
{
    let mut out: Vec<char> = Vec::new();
    let mut i: usize = from;
    while i < to
        invariant
            from <= i <= to <= v@.len(),
            out@ == v@.subrange(from as int, i as int),
        decreases to - i,
    {
        out.push(v[i]);
        i = i + 1;
        assert(out@ =~= v@.subrange(from as int, i as int));
    }
    string_from_chars(&out)
}

/// Extracts the raw MMDevice ID from a Windows policy path. Unrelated paths
/// give `None`.
pub fn raw_device_id(device_path: &str) -> (r: Option<String>)
    ensures
        r matches Some(s) ==> raw_device_id_of(device_path@) == Some(s@),
        r is None ==> raw_device_id_of(device_path@) is None,
{
    let path = chars_of(device_path);
    let prefix = chars_of(DEVICE_PATH_PREFIX);
    let suffix = chars_of(DEVICE_PATH_SUFFIX);
    let n = path.len();
    if n <= prefix.len() || n - prefix.len() <= suffix.len() {
        return None;
    }
    if !matches_ignoring_case_at(&path, 0, &prefix) {
        return None;
    }
    if !matches_ignoring_case_at(&path, n - suffix.len(), &suffix) {
        return None;
    }
    Some(slice_text(&path, prefix.len(), n - suffix.len()))
}

/// The persisted route a policy path denotes: an empty path, or one that is
/// no render-endpoint path, denotes none.
pub open spec fn persisted_route_of(path: Seq<char>) -> Option<Seq<char>> {
    if path.len() == 0 {
        None
    } else {
        raw_device_id_of(path)
    }
}

/// Turns the device path Windows returned for a process into a raw MMDevice ID.
pub fn persisted_route_from_path(device_path: &str) -> (r: Option<String>)
    ensures
        r matches Some(s) ==> persisted_route_of(device_path@) == Some(s@),
        r is None ==> persisted_route_of(device_path@) is None,
{
    if device_path.is_empty() {
        None
    } else {
        raw_device_id(device_path)
    }
}

/// Whether Windows' answer to one assignment may be ignored: it is given for
/// processes that have no audio session.
pub fn is_ignorable_assignment_error(code: i32) -> (r: bool)
    ensures
        r == (code == E_INVALIDARG),
{
    code == E_INVALIDARG
}

/// The decision on `RoInitialize`'s answer: `Ok(true)` when this thread
/// initialized the runtime and must uninitialize it, `Ok(false)` when the host
/// already owns another apartment, which must be left alone.
pub fn runtime_initialization(result: Result<(), i32>) -> (r: Result<bool, RoutingError>)
    ensures
        result is Ok ==> r == Ok::<bool, RoutingError>(true),
        result matches Err(code) ==> (code == RPC_E_CHANGED_MODE ==> r == Ok::<bool, RoutingError>(
            false,
        )),
        result matches Err(code) ==> (code != RPC_E_CHANGED_MODE ==> r == Err::<bool, RoutingError>(
            RoutingError::RuntimeInitialization { code },
        )),
{
    match result {
        Ok(()) => Ok(true),
        Err(code) => {
            if code == RPC_E_CHANGED_MODE {
                Ok(false)
            } else {
                Err(RoutingError::RuntimeInitialization { code })
            }
        },
    }
}

/// Which version of the private activation factory answered.
#[derive(Clone, Copy, Debug, PartialEq, Eq, Structural)]
pub enum FactoryVersion {
    /// The interface used since Windows 10 21H2.
    Current,
    /// The interface of earlier Windows versions, with the same method layout.
    Downlevel,
}

/// The decision after asking for the current factory and, when it failed,
/// the downlevel one (`None` while it has not been asked).
pub fn factory_choice(current: Result<(), i32>, downlevel: Option<Result<(), i32>>) -> (r: Option<
    Result<FactoryVersion, RoutingError>,
>)
    ensures
        current is Ok ==> r == Some(Ok::<FactoryVersion, RoutingError>(FactoryVersion::Current)),
        current is Err && downlevel is None ==> r is None,
        current is Err && downlevel == Some(Ok::<(), i32>(())) ==> r == Some(
            Ok::<FactoryVersion, RoutingError>(FactoryVersion::Downlevel),
        ),
        current matches Err(c) ==> (downlevel matches Some(Err(d)) ==> r == Some(
            Err::<FactoryVersion, RoutingError>(
                RoutingError::ActivationFactoryUnavailable { current_code: c, downlevel_code: d },
            ),
        )),
{
    match current {
        Ok(()) => Some(Ok(FactoryVersion::Current)),
        Err(c) => match downlevel {
            None => None,
            Some(Ok(())) => Some(Ok(FactoryVersion::Downlevel)),
            Some(Err(d)) => Some(
                Err(RoutingError::ActivationFactoryUnavailable { current_code: c, downlevel_code: d }),
            ),
        },
    }
}


/// The text windows-core gives an `HRESULT` in debug form.
pub open spec fn hresult_text(code: i32) -> Seq<char> {
    "HRESULT(0x"@ + hex_digits((code as u32) as nat, 8) + ")"@
}

/// Formats a status code as windows-core's `HRESULT` does in debug form.
/// Assumed: `HRESULT`'s `Debug` writes `HRESULT(` and its `Display` text,
/// which is `{:#010X}` of the code: `0x` and the eight upper-case hexadecimal
/// digits of its 32-bit pattern; then `)`.
#[verifier::external_body]
fn hresult_debug_text(code: i32) -> (s: String)
    ensures
        s@ == hresult_text(code),
{
    format!("{:?}", windows_core::HRESULT(code))
}

/// The user-facing description of a routing error.
pub open spec fn routing_error_text(e: RoutingError) -> Seq<char> {
    match e {
        RoutingError::NoProcesses => "no application processes were supplied"@,
        RoutingError::InvalidProcessId => "process ID zero cannot be routed"@,
        RoutingError::InvalidOutputDeviceId => "the selected output device ID is empty"@,
        RoutingError::RuntimeInitialization { code } => "Windows Runtime initialization failed ("@
            + hresult_text(code) + ")"@,
        RoutingError::ActivationFactoryUnavailable { current_code, downlevel_code } =>
            "Windows audio policy activation factory is unavailable (current: "@ + hresult_text(
            current_code,
        ) + ", downlevel: "@ + hresult_text(downlevel_code) + ")"@,
        RoutingError::AssignmentFailed { process_id, role, code } =>
            "Windows rejected output routing for process "@ + decimal(process_id as nat) + " ("@
            + role_label(role) + ", "@ + hresult_text(code) + ")"@,
        RoutingError::ReadFailed { process_id, role, code } =>
            "Windows could not read output routing for process "@ + decimal(process_id as nat)
            + " ("@ + role_label(role) + ", "@ + hresult_text(code) + ")"@,
        RoutingError::InconsistentAssignments =>
            "Windows reported inconsistent outputs for one application"@,
    }
}

/// `lead`, then the process, role and code of a failed per-process call.
fn process_failure_text(lead: &str, process_id: u32, role: AudioRole, code: i32) -> (s: String)
    ensures
        s@ == lead@ + decimal(process_id as nat) + " ("@ + role_label(role) + ", "@ + hresult_text(
            code,
        ) + ")"@,
{
    let s = String::from_str(lead);
    let mut s = s.concat(decimal_text(process_id as u64).as_str());
    s.append(" (");
    s.append(role.label());
    s.append(", ");
    s.append(hresult_debug_text(code).as_str());
    s.append(")");
    s
}

impl RoutingError {
    /// The user-facing description of this error.
    pub fn message(&self) -> (s: String)
        ensures
            s@ == routing_error_text(*self),
    {
        match *self {
            RoutingError::NoProcesses => String::from_str("no application processes were supplied"),
            RoutingError::InvalidProcessId => String::from_str("process ID zero cannot be routed"),
            RoutingError::InvalidOutputDeviceId => String::from_str(
                "the selected output device ID is empty",
            ),
            RoutingError::RuntimeInitialization { code } => {
                let s = String::from_str("Windows Runtime initialization failed (");
                let mut s = s.concat(hresult_debug_text(code).as_str());
                s.append(")");
                s
            },
            RoutingError::ActivationFactoryUnavailable { current_code, downlevel_code } => {
                let s = String::from_str(
                    "Windows audio policy activation factory is unavailable (current: ",
                );
                let mut s = s.concat(hresult_debug_text(current_code).as_str());
                s.append(", downlevel: ");
                s.append(hresult_debug_text(downlevel_code).as_str());
                s.append(")");
                s
            },
            RoutingError::AssignmentFailed { process_id, role, code } => process_failure_text(
                "Windows rejected output routing for process ",
                process_id,
                role,
                code,
            ),
            RoutingError::ReadFailed { process_id, role, code } => process_failure_text(
                "Windows could not read output routing for process ",
                process_id,
                role,
                code,
            ),
            RoutingError::InconsistentAssignments => String::from_str(
                "Windows reported inconsistent outputs for one application",
            ),
        }
    }
}

/// The process and role of the `k`-th assignment of a run over `process_ids`:
/// every process in order, multimedia before console.
pub open spec fn assignment_at(process_ids: Seq<u32>, k: int) -> (u32, AudioRole) {
    (process_ids[k / 2], role_at(k))
}

/// The assignments of one routing request, driven by the caller: it asks
/// Windows for each assignment that `next_assignment` names and hands the
/// answer to `record_assignment`, until there is none left.
pub struct AssignmentRun {
    process_ids: Vec<u32>,
    device_path: Option<String>,
    process_index: usize,
    console: bool,
}

impl AssignmentRun {
    /// The processes being routed.
    pub closed spec fn processes(&self) -> Seq<u32> {
        self.process_ids@
    }

    /// The device path handed to Windows, `None` for the system default.
    pub closed spec fn path(&self) -> Option<Seq<char>> {
        match &self.device_path {
            Some(p) => Some(p@),
            None => None,
        }
    }

    /// How many assignments have been answered.
    pub closed spec fn step(&self) -> int {
        2 * self.process_index + if self.console {
            1int
        } else {
            0
        }
    }

    /// Whether no assignment is left.
    pub open spec fn done(&self) -> bool {
        self.step() >= 2 * self.processes().len()
    }

    /// The run's invariant.
    pub closed spec fn wf(&self) -> bool {
        &&& self.process_index <= self.process_ids@.len()
        &&& (self.process_index == self.process_ids@.len() ==> !self.console)
    }

    /// The device path for every assignment of this run.
    pub fn device_path(&self) -> (r: Option<&str>)
        ensures
            text_option(r) == self.path(),
    {
        match &self.device_path {
            Some(p) => Some(p.as_str()),
            None => None,
        }
    }

    /// The process and role to assign next, if any is left.
    pub fn next_assignment(&self) -> (r: Option<(u32, AudioRole)>)
        requires
            self.wf(),
        ensures
            self.done() ==> r is None,
            !self.done() ==> r == Some(assignment_at(self.processes(), self.step())),
    {
        if self.process_index < self.process_ids.len() {
            let role = if self.console {
                AudioRole::Console
            } else {
                AudioRole::Multimedia
            };
            assert(self.step() / 2 == self.process_index);
            Some((self.process_ids[self.process_index], role))
        } else {
            None
        }
    }

    /// Records Windows' answer to the assignment `next_assignment` named. A
    /// refusal other than `E_INVALIDARG` ends the run with its error.
    pub fn record_assignment(&mut self, result: Result<(), i32>) -> (r: Result<(), RoutingError>)
        requires
            old(self).wf(),
            !old(self).done(),
        ensures
            final(self).wf(),
            final(self).processes() == old(self).processes(),
            final(self).path() == old(self).path(),
            result matches Err(code) ==> (code != E_INVALIDARG ==> r == Err::<(), RoutingError>(
                (RoutingError::AssignmentFailed {
                    process_id: assignment_at(old(self).processes(), old(self).step()).0,
                    role: assignment_at(old(self).processes(), old(self).step()).1,
                    code,
                }),
            ) && final(self).done()),
            (result is Ok || result == Err::<(), i32>(E_INVALIDARG)) ==> r is Ok && final(
                self).step() == old(self).step() + 1,
    {
        let role = if self.console {
            AudioRole::Console
        } else {
            AudioRole::Multimedia
        };
        let process_id = self.process_ids[self.process_index];
        assert(old(self).step() / 2 == old(self).process_index);
        if let Err(code) = result {
            if !is_ignorable_assignment_error(code) {
                self.process_index = self.process_ids.len();
                self.console = false;
                return Err(RoutingError::AssignmentFailed { process_id, role, code });
            }
        }
        assert(self.process_index < self.process_ids.len());
        if self.console {
            self.console = false;
            self.process_index = self.process_index + 1;
        } else {
            self.console = true;
        }
        Ok(())
    }
}

/// Starts routing `process_ids` to a raw MMDevice ID, or back to the system
/// default for `None`. Windows stores the selection for future streams of
/// both the multimedia and console roles of every process.
pub fn route_processes(process_ids: &[u32], output_device_id: Option<&str>) -> (r: Result<
    AssignmentRun,
    RoutingError,
>)
    ensures
        request_error(process_ids@, text_option(output_device_id)) matches Some(e) ==> r == Err::<
            AssignmentRun,
            RoutingError,
        >(e),
        request_error(process_ids@, text_option(output_device_id)) is None ==> (r matches Ok(run)
            && run.wf() && run.processes() == process_ids@ && run.step() == 0 && run.path() == (
        match output_device_id {
            Some(id) => Some(device_path_of(id@)),
            None => None,
        })),
{
    validate_request(process_ids, output_device_id)?;
    let device_path = match output_device_id {
        Some(id) => Some(render_device_path(id)),
        None => None,
    };
    let run = AssignmentRun {
        process_ids: vstd::slice::slice_to_vec(process_ids),
        device_path,
        process_index: 0,
        console: false,
    };
    Ok(run)
}

/// The reads of the routes Windows persisted for one application, driven by
/// the caller as for `AssignmentRun`.
pub struct PersistedOutputRun {
    process_ids: Vec<u32>,
    process_index: usize,
    console: bool,
    selected: Option<String>,
}

impl PersistedOutputRun {
    /// The processes being read.
    pub closed spec fn processes(&self) -> Seq<u32> {
        self.process_ids@
    }

    /// How many reads have been answered.
    pub closed spec fn step(&self) -> int {
        2 * self.process_index + if self.console {
            1int
        } else {
            0
        }
    }

    /// The explicit output the answers so far agree on.
    pub closed spec fn found(&self) -> Option<Seq<char>> {
        match &self.selected {
            Some(s) => Some(s@),
            None => None,
        }
    }

    /// Whether no read is left.
    pub open spec fn done(&self) -> bool {
        self.step() >= 2 * self.processes().len()
    }

    /// The run's invariant.
    pub closed spec fn wf(&self) -> bool {
        &&& self.process_index <= self.process_ids@.len()
        &&& (self.process_index == self.process_ids@.len() ==> !self.console)
    }

    /// The process and role to read next, if any is left.
    pub fn next_read(&self) -> (r: Option<(u32, AudioRole)>)
        requires
            self.wf(),
        ensures
            self.done() ==> r is None,
            !self.done() ==> r == Some(assignment_at(self.processes(), self.step())),
    {
        if self.process_index < self.process_ids.len() {
            let role = if self.console {
                AudioRole::Console
            } else {
                AudioRole::Multimedia
            };
            assert(self.step() / 2 == self.process_index);
            Some((self.process_ids[self.process_index], role))
        } else {
            None
        }
    }

    /// Records Windows' answer to the read `next_read` named: a failure ends
    /// the run; an explicit output that differs from an earlier one ends it
    /// as inconsistent; no output leaves the result as it was.
    pub fn record_read(&mut self, result: Result<Option<String>, i32>) -> (r: Result<
        (),
        RoutingError,
    >)
        requires
            old(self).wf(),
            !old(self).done(),
        ensures
            final(self).wf(),
            final(self).processes() == old(self).processes(),
            result matches Err(code) ==> (r == Err::<(), RoutingError>(
                (RoutingError::ReadFailed {
                    process_id: assignment_at(old(self).processes(), old(self).step()).0,
                    role: assignment_at(old(self).processes(), old(self).step()).1,
                    code,
                }),
            ) && final(self).done()),
            result == Ok::<Option<String>, i32>(None) ==> r is Ok && final(self).step() == old(self).step() + 1 && final(self).found() == old(self).found(),
            result matches Ok(Some(output)) ==> (old(self).found() matches Some(known) && known
                != output@ ==> r == Err::<(), RoutingError>(RoutingError::InconsistentAssignments)
                && final(self).done()),
            result matches Ok(Some(output)) ==> (old(self).found() is None || old(self).found()
                == Some(output@) ==> r is Ok && final(self).step() == old(self).step() + 1 && final(self).found() == Some(output@)),
    {
        let role = if self.console {
            AudioRole::Console
        } else {
            AudioRole::Multimedia
        };
        let process_id = self.process_ids[self.process_index];
        assert(old(self).step() / 2 == old(self).process_index);
        match result {
            Err(code) => {
                self.process_index = self.process_ids.len();
                self.console = false;
                return Err(RoutingError::ReadFailed { process_id, role, code });
            },
            Ok(None) => {},
            Ok(Some(output)) => {
                let differs = match &self.selected {
                    Some(known) => !crate::text::text_eq(known.as_str(), output.as_str()),
                    None => false,
                };
                if differs {
                    self.process_index = self.process_ids.len();
                    self.console = false;
                    return Err(RoutingError::InconsistentAssignments);
                }
                self.selected = Some(output);
            },
        }
        assert(self.process_index < self.process_ids.len());
        if self.console {
            self.console = false;
            self.process_index = self.process_index + 1;
        } else {
            self.console = true;
        }
        Ok(())
    }

    /// The explicit output all answers agreed on, `None` if none reported one.
    pub fn selected(&self) -> (r: Option<&str>)
        ensures
            text_option(r) == self.found(),
    {
        match &self.selected {
            Some(s) => Some(s.as_str()),
            None => None,
        }
    }
}

/// Starts reading the explicit output Windows persisted for an application's
/// processes.
pub fn persisted_output_for_processes(process_ids: &[u32]) -> (r: Result<
    PersistedOutputRun,
    RoutingError,
>)
    ensures
        processes_error(process_ids@) matches Some(e) ==> r == Err::<PersistedOutputRun, RoutingError>(
            e,
        ),
        processes_error(process_ids@) is None ==> (r matches Ok(run) && run.wf() && run.processes()
            == process_ids@ && run.step() == 0 && run.found() is None),
{
    validate_processes(process_ids)?;
    Ok(PersistedOutputRun {
        process_ids: vstd::slice::slice_to_vec(process_ids),
        process_index: 0,
        console: false,
        selected: None,
    })
}

} // verus!
