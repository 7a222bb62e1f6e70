use vstd::prelude::*;

verus! {

/// The input modes of the interface, named by mode switch events.
#[derive(Clone, Copy, Debug, PartialEq, Eq, Structural)]
pub enum Mode {
    Viewer,
    ActiveViewer,
    ModelSelector,
    Input,
    ActiveInput,
}

/// How the conversation view takes part in input.
#[derive(Clone, Copy, Debug, Default, PartialEq, Eq, Structural)]
pub enum ViewerState {
    Active,
    Focused,
    #[default]
    Unfocused,
}

/// The view's state once the interface has switched to `mode`.
pub open spec fn state_for_mode(mode: Mode) -> ViewerState {
    match mode {
        Mode::Viewer => ViewerState::Focused,
        Mode::ActiveViewer => ViewerState::Active,
        Mode::ModelSelector | Mode::Input | Mode::ActiveInput => ViewerState::Unfocused,
    }
}

pub fn state_for(mode: Mode) -> (r: ViewerState)
    ensures
        r == state_for_mode(mode),
{
    match mode {
        Mode::Viewer => ViewerState::Focused,
        Mode::ActiveViewer => ViewerState::Active,
        Mode::ModelSelector => ViewerState::Unfocused,
        Mode::Input => ViewerState::Unfocused,
        Mode::ActiveInput => ViewerState::Unfocused,
    }
}

} // verus!
