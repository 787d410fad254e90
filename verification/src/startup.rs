//! What the shell does with its main window when it starts.

use vstd::prelude::*;

verus! {

/// One thing that the host does with the main window at start.
#[derive(Clone, Copy, Debug, PartialEq, Eq, Structural)]
pub enum SetupStep {
    /// Open the developer tools of the window.
    OpenDevtools,
    /// Make the window visible.
    ShowWindow,
}

/// The steps of a start, in order. A development build opens the developer
/// tools first and shows the window after that, so that the window does not
/// come up black; a window that does not exist is not shown.
pub open spec fn setup_steps(development: bool, main_window: bool) -> Seq<SetupStep> {
    let devtools = if development {
        seq![SetupStep::OpenDevtools]
    } else {
        Seq::empty()
    };
    let show = if main_window {
        seq![SetupStep::ShowWindow]
    } else {
        Seq::empty()
    };
    devtools + show
}

/// The label under which the host finds the main window.
pub fn main_window_label() -> (label: &'static str)
    ensures
        label@ == "main"@,
{
    "main"
}

} // verus!
