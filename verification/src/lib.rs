//! Lifecycle management for third-party game add-ons ("mods"): classifying an
//! add-on's install state against a local registry, deriving the next
//! permissible user action, and orchestrating install / update / remove
//! workflows with per-item in-flight guarding.
//!
//! The crate owns the decision logic only. File transfer, provider search and
//! raw file I/O are performed by the hosting program, which drives the
//! workflow state machine in [`workflow`] by executing the pending operation
//! of each state and reporting its outcome back.

pub mod action;
pub mod display;
pub mod errors;
pub mod projection;
pub mod registry;
pub mod status;
pub mod tracker;
pub mod version;
pub mod workflow;

pub use action::ActionDescriptor;
pub use action::ActionLabel;
pub use action::StyleClass;
pub use action::WorkflowAction;
pub use action::resolve_action;
pub use display::date_portion;
pub use errors::ErrorSlots;
pub use errors::WorkflowError;
pub use projection::VersionListProjection;
pub use registry::InstalledModEntry;
pub use registry::Provider;
pub use registry::Registry;
pub use status::InstallInfo;
pub use status::InstallStatus;
pub use status::check_install_status;
pub use tracker::ProcessingTracker;
pub use version::ModVersion;
pub use version::ReleaseType;
pub use workflow::BeginOutcome;
pub use workflow::Engine;
pub use workflow::StepOutcome;
pub use workflow::WorkflowRun;
pub use workflow::WorkflowState;
