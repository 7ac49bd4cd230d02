use vstd::prelude::*;

verus! {

/// What happened to a workspace, as the window manager reports it.
#[derive(Clone, Copy, Debug, PartialEq, Eq, Structural)]
pub enum WorkspaceChange {
    /// A workspace was created.
    Init,
    /// A workspace became empty and was destroyed.
    Empty,
    /// A workspace received focus.
    Focus,
    /// Any other change (move, rename, urgency, reload): not acted upon.
    Other,
}

/// A workspace notice: the kind of change and the id of the workspace that
/// the notice names as current, where it names one.
#[derive(Clone, Copy, Debug, PartialEq, Eq, Structural)]
pub struct WorkspaceChangeNotice {
    pub change: WorkspaceChange,
    pub current: Option<i64>,
}

/// An event for the workspace switcher, from the key interceptor or from the
/// window manager's event stream.
#[derive(Clone, Copy, Debug, PartialEq, Eq, Structural)]
pub enum WorkspaceSwitcherEvent {
    /// The trigger key was pressed while the modifier was held.
    Trigger,
    /// The modifier was released after one or more triggers.
    EndMod,
    /// A workspace notice from the window manager.
    SwayWsEvent(WorkspaceChangeNotice),
}

} // verus!
