//! Where a chosen file handle goes, and what is done with it.

use vstd::prelude::*;

verus! {

#[derive(Debug, Copy, Clone, PartialEq, Eq, Structural)]
pub enum FileHandleAction {
    Open,
    Save,
    Export,
}

/// The file handle that a dialog result is kept as.
#[derive(Debug, Copy, Clone, PartialEq, Eq, Structural)]
pub enum FileSlot {
    Ron,
    Svg,
}

/// The event that follows the dialog.
#[derive(Debug, Copy, Clone, PartialEq, Eq, Structural)]
pub enum FileEvent {
    Load,
    Save,
    Export,
}

/// Where the handle of an action is kept and what follows: opening and saving use
/// the scene file (then load or save), exporting uses the SVG file.
pub open spec fn file_handle_target_spec(action: FileHandleAction) -> (FileSlot, FileEvent) {
    match action {
        FileHandleAction::Open => (FileSlot::Ron, FileEvent::Load),
        FileHandleAction::Save => (FileSlot::Ron, FileEvent::Save),
        FileHandleAction::Export => (FileSlot::Svg, FileEvent::Export),
    }
}

/// Decides, for a received file handle, where it is kept and which event follows.
pub fn file_handle_target(action: FileHandleAction) -> (r: (FileSlot, FileEvent))
    ensures
        r == file_handle_target_spec(action),
{
    match action {
        FileHandleAction::Open => (FileSlot::Ron, FileEvent::Load),
        FileHandleAction::Save => (FileSlot::Ron, FileEvent::Save),
        FileHandleAction::Export => (FileSlot::Svg, FileEvent::Export),
    }
}

} // verus!
