//! Per-application audio output routing: the platform-independent routing
//! engine together with the decision logic of the Windows shell around it.

pub mod audio;
pub mod cursor;
pub mod engine;
pub mod engine_laws;
pub mod geometry;
pub mod hotkeys;
pub mod i18n;
pub mod i18n_laws;
pub mod icons;
pub mod identity;
pub mod keyed;
pub mod layout;
pub mod locator;
pub mod model;
pub mod popup;
pub mod popup_input;
pub mod probe;
pub mod process_identity;
pub mod route_store;
pub mod runtime;
pub mod routing;
pub mod selector;
pub mod startup;
pub mod symbols;
pub mod taskbar;
pub mod text;
pub mod theme;
pub mod tray;
pub mod volume;

pub use engine::RouterEngine;
pub use identity::{ApplicationId, IdentifierError, OutputId};
pub use model::{
    ApplicationSnapshot, Capabilities, CapabilityAvailability, Command, CommandError, Notice,
    Observation, RouteFailure, RouteStatus, Snapshot, UnavailableReason,
};
