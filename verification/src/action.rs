//! Deriving the next permissible operation, and how its trigger is presented,
//! from the install state, the in-flight marker and the last recorded
//! failure. Total and deterministic over its inputs.

use vstd::prelude::*;

use crate::status::InstallInfo;
use crate::status::InstallStatus;
use crate::errors::WorkflowError;

verus! {

/// An operation a workflow can carry out.
#[derive(Clone, Copy, PartialEq, Eq, Structural, Debug)]
pub enum WorkflowAction {
    Install,
    Update,
    Remove,
}

/// The wording variant of the trigger; rendering maps each variant to its
/// presentation separately.
#[derive(Clone, Copy, PartialEq, Eq, Structural, Debug)]
pub enum ActionLabel {
    Working,
    Retry,
    Install,
    Update,
    Remove,
}

/// The styling variant of the trigger.
#[derive(Clone, Copy, PartialEq, Eq, Structural, Debug)]
pub enum StyleClass {
    Secondary,
    Danger,
    Brand,
    Warning,
}

/// Ephemeral, recomputed on demand: the operation to dispatch on trigger
/// (`None` while the item is in flight) with its presentation variants.
#[derive(Clone, Copy, PartialEq, Eq, Structural, Debug)]
pub struct ActionDescriptor {
    pub action: Option<WorkflowAction>,
    pub label: ActionLabel,
    pub style_class: StyleClass,
    pub disabled: bool,
}

/// The operation an install state calls for: an installed item is removed, a
/// missing one installed, an outdated one updated.
pub open spec fn spec_target_action(status: InstallStatus) -> WorkflowAction {
    match status {
        InstallStatus::Installed => WorkflowAction::Remove,
        InstallStatus::NotInstalled => WorkflowAction::Install,
        InstallStatus::Outdated => WorkflowAction::Update,
    }
}

/// The descriptor derived from an install state. Priority order, highest
/// first: in flight overrides everything with a disabled waiting state; a
/// recorded failure keeps the status-derived target but presents it as a
/// retry; otherwise the target is presented under its own wording.
pub open spec fn spec_resolve_action(
    status: InstallStatus,
    is_processing: bool,
    has_error: bool,
) -> ActionDescriptor {
    if is_processing {
        ActionDescriptor {
            action: None,
            label: ActionLabel::Working,
            style_class: StyleClass::Secondary,
            disabled: true,
        }
    } else if has_error {
        ActionDescriptor {
            action: Some(spec_target_action(status)),
            label: ActionLabel::Retry,
            style_class: StyleClass::Danger,
            disabled: false,
        }
    } else {
        match spec_target_action(status) {
            WorkflowAction::Remove => ActionDescriptor {
                action: Some(WorkflowAction::Remove),
                label: ActionLabel::Remove,
                style_class: StyleClass::Danger,
                disabled: false,
            },
            WorkflowAction::Install => ActionDescriptor {
                action: Some(WorkflowAction::Install),
                label: ActionLabel::Install,
                style_class: StyleClass::Brand,
                disabled: false,
            },
            WorkflowAction::Update => ActionDescriptor {
                action: Some(WorkflowAction::Update),
                label: ActionLabel::Update,
                style_class: StyleClass::Warning,
                disabled: false,
            },
        }
    }
}

/// Derive the trigger descriptor for an item. Total: every combination of
/// install state, in-flight marker and last failure yields a descriptor.
pub fn resolve_action(
    info: &InstallInfo,
    is_processing: bool,
    last_error: Option<WorkflowError>,
) -> (d: ActionDescriptor)
    ensures
        d == spec_resolve_action(info.install_status, is_processing, last_error is Some),
{
    let target = match info.install_status {
        InstallStatus::Installed => WorkflowAction::Remove,
        InstallStatus::NotInstalled => WorkflowAction::Install,
        InstallStatus::Outdated => WorkflowAction::Update,
    };
    if is_processing {
        ActionDescriptor {
            action: None,
            label: ActionLabel::Working,
            style_class: StyleClass::Secondary,
            disabled: true,
        }
    } else if last_error.is_some() {
        ActionDescriptor {
            action: Some(target),
            label: ActionLabel::Retry,
            style_class: StyleClass::Danger,
            disabled: false,
        }
    } else {
        match target {
            WorkflowAction::Remove => ActionDescriptor {
                action: Some(WorkflowAction::Remove),
                label: ActionLabel::Remove,
                style_class: StyleClass::Danger,
                disabled: false,
            },
            WorkflowAction::Install => ActionDescriptor {
                action: Some(WorkflowAction::Install),
                label: ActionLabel::Install,
                style_class: StyleClass::Brand,
                disabled: false,
            },
            WorkflowAction::Update => ActionDescriptor {
                action: Some(WorkflowAction::Update),
                label: ActionLabel::Update,
                style_class: StyleClass::Warning,
                disabled: false,
            },
        }
    }
}

/// Action derivation is deterministic: identical inputs always yield the
/// identical descriptor, so any two results of [`resolve_action`] on the same
/// install state, in-flight marker and failure presence are equal.
pub proof fn lemma_action_resolver_deterministic(
    status: InstallStatus,
    is_processing: bool,
    has_error: bool,
    a: ActionDescriptor,
    b: ActionDescriptor,
)
    requires
        a == spec_resolve_action(status, is_processing, has_error),
        b == spec_resolve_action(status, is_processing, has_error),
    ensures
        a == b,
{
}

} // verus!
