//! The native side of a desktop shell: the decisions behind the commands that
//! a web front end invokes for file access and native file dialogs, and
//! behind the start of the shell itself.
//!
//! The library performs no input or output itself. Each command is split at
//! the point where the operating system or the windowing toolkit has to act:
//! the host performs that action and hands the outcome back as plain values,
//! and the functions here decide what is asked of the host and what the front
//! end is told.

use vstd::prelude::*;
use crate::startup::{setup_steps, SetupStep};

pub mod commands;
pub mod dialog;
pub mod failure;
pub mod reply;
pub mod startup;
pub mod write;

verus! {

/// Plans the start of the shell: what the host does with the main window
/// once the toolkit is set up, in order.
///
/// `development` tells a development build from a release, and
/// `main_window` whether the host found the main window. A development
/// build cannot start without its main window.
pub fn run(development: bool, main_window: bool) -> (steps: Vec<SetupStep>)
    requires
        development ==> main_window,
    ensures
        steps@ == setup_steps(development, main_window),
{
    let mut steps: Vec<SetupStep> = Vec::new();
    if development {
        steps.push(SetupStep::OpenDevtools);
    }
    if main_window {
        steps.push(SetupStep::ShowWindow);
    }
    assert(steps@ =~= setup_steps(development, main_window));
    steps
}

} // verus!
