//! What is selected in the editor: a panel, and in the settings panel a
//! field.

use vstd::prelude::*;

verus! {

/// The two panels between which the focus moves.
#[derive(Clone, Copy, Debug, PartialEq, Eq, Structural)]
pub enum Panel {
    SegmentList,
    Settings,
}

/// The fields of the settings panel.
#[derive(Clone, Copy, Debug, PartialEq, Eq, Structural)]
pub enum FieldSelection {
    Enabled,
    Icon,
    IconColor,
    TextColor,
    BackgroundColor,
    TextStyle,
    WarningThreshold,
    CriticalThreshold,
    WarningColor,
    CriticalColor,
    WarningBold,
    CriticalBold,
    ShowSha,
    ShowDirtyCount,
    Options,
}

} // verus!
