use vstd::prelude::*;

verus! {

/// A widget of the user interface, named as the UI's node pool names it:
/// a slot index and the generation of that slot.
#[derive(Clone, Copy, Debug, PartialEq, Eq, Structural)]
pub struct WidgetHandle {
    pub index: u32,
    pub generation: u32,
}

impl WidgetHandle {
    pub fn new(index: u32, generation: u32) -> (r: WidgetHandle)
        ensures
            r.index == index,
            r.generation == generation,
    {
        WidgetHandle { index, generation }
    }

    /// Two handles name the same widget when slot and generation agree.
    pub fn same(&self, other: &WidgetHandle) -> (r: bool)
        ensures
            r == (*self == *other),
    {
        self.index == other.index && self.generation == other.generation
    }
}

/// A request to a window widget.
#[derive(Clone, Copy, Debug, PartialEq, Eq, Structural)]
pub enum WindowCommand {
    Open(WidgetHandle),
    OpenModal(WidgetHandle),
    Close(WidgetHandle),
}

/// The command that flips `window` between shown and hidden: a visible
/// window is closed, a hidden one opened.
pub open spec fn switched(window: WidgetHandle, visible: bool) -> WindowCommand {
    if visible {
        WindowCommand::Close(window)
    } else {
        WindowCommand::Open(window)
    }
}

pub fn switch_window_state(window: WidgetHandle, visible: bool) -> (r: WindowCommand)
    ensures
        r == switched(window, visible),
{
    if visible {
        WindowCommand::Close(window)
    } else {
        WindowCommand::Open(window)
    }
}

} // verus!
