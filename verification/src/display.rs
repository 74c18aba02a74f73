//! Pure derivations for presenting a version row: the stability tag, the
//! per-row install trigger, and the date portion of an upload timestamp.

use vstd::prelude::*;
use vstd::string::StrSliceExecFns;

use crate::version::ReleaseType;

verus! {

/// The colour variant a presentation maps to its palette separately.
#[derive(Clone, Copy, PartialEq, Eq, Structural, Debug)]
pub enum TagColor {
    Success,
    Brand,
    Danger,
    Secondary,
}

/// The one-letter stability tag shown beside a version.
#[derive(Clone, Copy, PartialEq, Eq, Structural, Debug)]
pub struct ReleaseTag {
    pub letter: char,
    pub color: TagColor,
}

/// The tag each stability class is shown under.
pub open spec fn spec_release_tag(rt: ReleaseType) -> ReleaseTag {
    match rt {
        ReleaseType::Release => ReleaseTag { letter: 'R', color: TagColor::Success },
        ReleaseType::Beta => ReleaseTag { letter: 'B', color: TagColor::Brand },
        ReleaseType::Alpha => ReleaseTag { letter: 'A', color: TagColor::Danger },
        ReleaseType::Unknown => ReleaseTag { letter: '?', color: TagColor::Secondary },
    }
}

/// Derive the stability tag for one version row.
pub fn release_tag(rt: ReleaseType) -> (t: ReleaseTag)
    ensures
        t == spec_release_tag(rt),
{
    match rt {
        ReleaseType::Release => ReleaseTag { letter: 'R', color: TagColor::Success },
        ReleaseType::Beta => ReleaseTag { letter: 'B', color: TagColor::Brand },
        ReleaseType::Alpha => ReleaseTag { letter: 'A', color: TagColor::Danger },
        ReleaseType::Unknown => ReleaseTag { letter: '?', color: TagColor::Secondary },
    }
}

/// The wording of a version row's install trigger.
#[derive(Clone, Copy, PartialEq, Eq, Structural, Debug)]
pub enum RowLabel {
    Installed,
    NotAvailable,
    Install,
}

/// The styling of a version row's install trigger.
#[derive(Clone, Copy, PartialEq, Eq, Structural, Debug)]
pub enum RowStyle {
    Muted,
    Secondary,
    Brand,
}

/// A version row's install trigger: what it says, how it is styled, and
/// whether it can be pressed.
#[derive(Clone, Copy, PartialEq, Eq, Structural, Debug)]
pub struct RowButtonState {
    pub label: RowLabel,
    pub style: RowStyle,
    pub disabled: bool,
}

/// The trigger a row presents: an installed version is inert, a version with
/// no download URL is unavailable, anything else offers an install; any row
/// is disabled while the item is in flight.
pub open spec fn spec_row_button(
    is_installed: bool,
    has_url: bool,
    is_processing: bool,
) -> RowButtonState {
    if is_installed {
        RowButtonState { label: RowLabel::Installed, style: RowStyle::Muted, disabled: true }
    } else if !has_url {
        RowButtonState {
            label: RowLabel::NotAvailable,
            style: RowStyle::Secondary,
            disabled: true,
        }
    } else {
        RowButtonState {
            label: RowLabel::Install,
            style: RowStyle::Brand,
            disabled: is_processing,
        }
    }
}

/// Derive the install trigger for one version row.
pub fn row_button(is_installed: bool, has_url: bool, is_processing: bool) -> (b: RowButtonState)
    ensures
        b == spec_row_button(is_installed, has_url, is_processing),
{
    if is_installed {
        RowButtonState { label: RowLabel::Installed, style: RowStyle::Muted, disabled: true }
    } else if !has_url {
        RowButtonState {
            label: RowLabel::NotAvailable,
            style: RowStyle::Secondary,
            disabled: true,
        }
    } else {
        RowButtonState {
            label: RowLabel::Install,
            style: RowStyle::Brand,
            disabled: is_processing,
        }
    }
}

/// The date portion of an ISO-8601-like timestamp: the characters preceding
/// the first `'T'`, or the whole string when it has none.
pub fn date_portion(timestamp: &str) -> (r: String)
    ensures
        r@ == timestamp@.subrange(0, r@.len() as int),
        forall|j: int| 0 <= j < r@.len() ==> timestamp@[j] != 'T',
        r@.len() == timestamp@.len() || timestamp@[r@.len() as int] == 'T',
{
    let n = timestamp.unicode_len();
    let mut i: usize = 0;
    while i < n
        invariant
            i <= n,
            n == timestamp@.len(),
            forall|j: int| 0 <= j < i ==> timestamp@[j] != 'T',
        decreases n - i,
    {
        if timestamp.get_char(i) == 'T' {
            return timestamp.substring_char(0, i).to_owned();
        }
        i += 1;
    }
    timestamp.substring_char(0, n).to_owned()
}

} // verus!
