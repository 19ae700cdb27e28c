//! Values exchanged with the routing engine and their mathematical views.

use vstd::prelude::*;

use crate::identity::{ApplicationId, OutputId};

verus! {

/// A stable reason why a capability is not currently available.
#[derive(Clone, Copy, Debug, Eq, PartialEq, Structural)]
pub enum UnavailableReason {
    /// The platform cannot provide the operation reliably.
    UnsupportedByPlatform,
    /// The platform backend is temporarily unavailable.
    BackendUnavailable,
}

/// Runtime availability of one platform operation.
#[derive(Clone, Copy, Debug, Eq, PartialEq, Structural)]
pub enum CapabilityAvailability {
    /// The operation may be requested.
    Available,
    /// The operation cannot currently be provided.
    Unavailable(UnavailableReason),
    /// The operation requires user-granted operating-system permission.
    PermissionRequired,
}

/// Platform operations understood by this engine slice.
#[derive(Clone, Copy, Debug, Eq, PartialEq, Structural)]
pub struct Capabilities {
    /// Whether persistent application-level output routing can be requested.
    pub application_routing: CapabilityAvailability,
}

/// A complete point-in-time observation from a platform audio adapter.
///
/// Applications are already grouped into stable application identities.
/// Duplicate identities are harmless and removed. The engine takes ownership of
/// all values; observations contain no borrowed or native handles.
#[derive(Clone, Debug, Eq, PartialEq)]
pub struct Observation {
    /// Capabilities that may change after permissions or backend recovery.
    pub capabilities: Capabilities,
    /// Applications that currently own observable audio streams.
    pub applications: Vec<ApplicationId>,
    /// Output devices currently reported by the operating system.
    pub outputs: Vec<OutputId>,
    /// The current system default, if the platform reports one.
    pub system_default: Option<OutputId>,
}

/// A user intention accepted by the routing engine.
#[derive(Clone, Debug, Eq, PartialEq)]
pub enum Command {
    /// Persistently route the application's current and future streams.
    SetRoute {
        /// The stable grouped application identity.
        application: ApplicationId,
        /// The exact output identity to retain through temporary disconnection.
        output: OutputId,
    },
    /// Remove the persistent route so the application tracks the system default.
    FollowSystemDefault {
        /// The stable grouped application identity.
        application: ApplicationId,
    },
}

/// A command rejected before any routing state is mutated.
#[derive(Clone, Copy, Debug, Eq, PartialEq, Structural)]
pub enum CommandError {
    /// Persistent application routing is not currently available.
    ApplicationRoutingUnavailable(CapabilityAvailability),
}

/// Why an active application is temporarily falling back to the system default.
#[derive(Clone, Debug, Eq, PartialEq)]
pub enum RouteFailure {
    /// The exact saved output is not present in the latest observation.
    DesiredOutputUnavailable(OutputId),
    /// The platform reports that application routing is unsupported.
    RoutingUnavailable(UnavailableReason),
    /// The platform requires user permission before it can route applications.
    PermissionRequired,
}

/// A quiet user-facing event emitted once per distinct failure episode.
#[derive(Clone, Debug, Eq, PartialEq)]
pub enum Notice {
    /// A saved route cannot currently be applied. The desired route remains stored.
    RouteFailed {
        /// The active application whose route entered a failure episode.
        application: ApplicationId,
        /// The structured reason to localize and present outside the engine.
        reason: RouteFailure,
    },
}

/// Current routing status for one application.
#[derive(Clone, Debug, Eq, PartialEq)]
pub enum RouteStatus {
    /// The active application has no saved route and follows the system default.
    FollowingSystemDefault,
    /// The exact desired output is present and routing is available.
    Applied,
    /// The desired route remains stored while the active application uses fallback.
    Fallback(RouteFailure),
    /// The configured application currently has no observed audio streams.
    Inactive,
}

/// Immutable application state owned by a [`Snapshot`].
#[derive(Clone, Debug, Eq, PartialEq)]
pub struct ApplicationSnapshot {
    /// The stable grouped application identity.
    pub id: ApplicationId,
    /// Whether the latest observation contains audio streams for this application.
    pub active: bool,
    /// The stored exact output, or `None` when following the system default.
    pub desired_output: Option<OutputId>,
    /// The output currently selected by policy, or `None` while inactive or unknown.
    pub effective_output: Option<OutputId>,
    /// Whether the saved route is applied, following default, inactive, or failing.
    pub route_status: RouteStatus,
}

/// An owned, immutable view for shells and adapters.
///
/// Active applications come first, followed by configured inactive
/// applications; each section is ordered by stable identity. Outputs are
/// ordered by stable identity. A snapshot remains valid after later engine
/// mutations.
#[derive(Clone, Debug, Eq, PartialEq)]
pub struct Snapshot {
    /// Runtime platform capabilities used to validate new commands.
    pub capabilities: Capabilities,
    /// Active-first application state with configured inactive applications retained.
    pub applications: Vec<ApplicationSnapshot>,
    /// Currently observed outputs, ordered by stable identity.
    pub outputs: Vec<OutputId>,
    /// The latest platform-reported system default, if known.
    pub system_default: Option<OutputId>,
}

// ---------------------------------------------------------------------------
// Mathematical views
// ---------------------------------------------------------------------------

/// The view of a [`RouteFailure`].
pub enum RouteFailureView {
    DesiredOutputUnavailable(Seq<char>),
    RoutingUnavailable(UnavailableReason),
    PermissionRequired,
}

/// The view of a [`Notice`]: the application and the reason of its new episode.
pub struct NoticeView {
    pub application: Seq<char>,
    pub reason: RouteFailureView,
}

/// The view of a [`RouteStatus`].
pub enum RouteStatusView {
    FollowingSystemDefault,
    Applied,
    Fallback(RouteFailureView),
    Inactive,
}

/// The view of an [`ApplicationSnapshot`].
pub struct ApplicationSnapshotView {
    pub id: Seq<char>,
    pub active: bool,
    pub desired_output: Option<Seq<char>>,
    pub effective_output: Option<Seq<char>>,
    pub route_status: RouteStatusView,
}

/// The view of a [`Command`].
pub enum CommandView {
    SetRoute { application: Seq<char>, output: Seq<char> },
    FollowSystemDefault { application: Seq<char> },
}

pub open spec fn option_view(o: Option<OutputId>) -> Option<Seq<char>> {
    match o {
        Some(id) => Some(id@),
        None => None,
    }
}

impl View for RouteFailure {
    type V = RouteFailureView;

    open spec fn view(&self) -> RouteFailureView {
        match self {
            RouteFailure::DesiredOutputUnavailable(o) => RouteFailureView::DesiredOutputUnavailable(
                o@,
            ),
            RouteFailure::RoutingUnavailable(r) => RouteFailureView::RoutingUnavailable(*r),
            RouteFailure::PermissionRequired => RouteFailureView::PermissionRequired,
        }
    }
}

impl DeepView for RouteFailure {
    type V = RouteFailureView;

    open spec fn deep_view(&self) -> RouteFailureView {
        self@
    }
}

impl View for Notice {
    type V = NoticeView;

    open spec fn view(&self) -> NoticeView {
        match self {
            Notice::RouteFailed { application, reason } => NoticeView {
                application: application@,
                reason: reason@,
            },
        }
    }
}

impl DeepView for Notice {
    type V = NoticeView;

    open spec fn deep_view(&self) -> NoticeView {
        self@
    }
}

impl View for RouteStatus {
    type V = RouteStatusView;

    open spec fn view(&self) -> RouteStatusView {
        match self {
            RouteStatus::FollowingSystemDefault => RouteStatusView::FollowingSystemDefault,
            RouteStatus::Applied => RouteStatusView::Applied,
            RouteStatus::Fallback(f) => RouteStatusView::Fallback(f@),
            RouteStatus::Inactive => RouteStatusView::Inactive,
        }
    }
}

impl View for ApplicationSnapshot {
    type V = ApplicationSnapshotView;

    open spec fn view(&self) -> ApplicationSnapshotView {
        ApplicationSnapshotView {
            id: self.id@,
            active: self.active,
            desired_output: option_view(self.desired_output),
            effective_output: option_view(self.effective_output),
            route_status: self.route_status@,
        }
    }
}

impl DeepView for ApplicationSnapshot {
    type V = ApplicationSnapshotView;

    open spec fn deep_view(&self) -> ApplicationSnapshotView {
        self@
    }
}

impl View for Command {
    type V = CommandView;

    open spec fn view(&self) -> CommandView {
        match self {
            Command::SetRoute { application, output } => CommandView::SetRoute {
                application: application@,
                output: output@,
            },
            Command::FollowSystemDefault { application } => CommandView::FollowSystemDefault {
                application: application@,
            },
        }
    }
}

impl CapabilityAvailability {
    /// The diagnostic spelling of this availability, as the error message shows it.
    pub fn label(&self) -> (s: &'static str)
        ensures
            s@ == availability_label(*self),
    {
        match self {
            CapabilityAvailability::Available => "Available",
            CapabilityAvailability::Unavailable(UnavailableReason::UnsupportedByPlatform) => {
                "Unavailable(UnsupportedByPlatform)"
            },
            CapabilityAvailability::Unavailable(UnavailableReason::BackendUnavailable) => {
                "Unavailable(BackendUnavailable)"
            },
            CapabilityAvailability::PermissionRequired => "PermissionRequired",
        }
    }
}

pub open spec fn availability_label(a: CapabilityAvailability) -> Seq<char> {
    match a {
        CapabilityAvailability::Available => "Available"@,
        CapabilityAvailability::Unavailable(UnavailableReason::UnsupportedByPlatform) => {
            "Unavailable(UnsupportedByPlatform)"@
        },
        CapabilityAvailability::Unavailable(UnavailableReason::BackendUnavailable) => {
            "Unavailable(BackendUnavailable)"@
        },
        CapabilityAvailability::PermissionRequired => "PermissionRequired"@,
    }
}

impl CommandError {
    /// The user-facing description of this error.
    pub fn message(&self) -> (s: String)
        ensures
            s@ == "application routing is unavailable: "@ + match self {
                CommandError::ApplicationRoutingUnavailable(a) => availability_label(*a),
            },
    {
        match self {
            CommandError::ApplicationRoutingUnavailable(availability) => {
                let prefix = String::from_str("application routing is unavailable: ");
                prefix.concat(availability.label())
            },
        }
    }
}

impl RouteFailure {
    /// An independent copy of this failure.
    pub fn duplicate(&self) -> (r: Self)
        ensures
            r@ == self@,
    {
        match self {
            RouteFailure::DesiredOutputUnavailable(o) => RouteFailure::DesiredOutputUnavailable(
                o.duplicate(),
            ),
            RouteFailure::RoutingUnavailable(r) => RouteFailure::RoutingUnavailable(*r),
            RouteFailure::PermissionRequired => RouteFailure::PermissionRequired,
        }
    }

    /// Whether both values describe the same failure.
    pub fn same_as(&self, other: &Self) -> (r: bool)
        ensures
            r == (self@ == other@),
    {
        match (self, other) {
            (
                RouteFailure::DesiredOutputUnavailable(a),
                RouteFailure::DesiredOutputUnavailable(b),
            ) => a.same_as(b),
            (RouteFailure::RoutingUnavailable(a), RouteFailure::RoutingUnavailable(b)) => {
                *a == *b
            },
            (RouteFailure::PermissionRequired, RouteFailure::PermissionRequired) => true,
            _ => false,
        }
    }
}

} // verus!
