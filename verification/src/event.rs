//! Events of the loop and commands of the screens.

use vstd::prelude::*;
use crate::key::Key;

verus! {

/// A selectable tab of the tabbed container.
#[derive(Clone, Copy, Debug, PartialEq, Eq, Structural)]
pub enum Tab {
    One,
    Two,
}

impl Tab {
    /// The tab that is not this one.
    pub open spec fn other(self) -> Tab {
        match self {
            Tab::One => Tab::Two,
            Tab::Two => Tab::One,
        }
    }

    /// Returns the tab that is not this one.
    pub fn toggled(&self) -> (r: Tab)
        ensures
            r == self.other(),
    {
        match self {
            Tab::One => Tab::Two,
            Tab::Two => Tab::One,
        }
    }
}

impl Default for Tab {
    fn default() -> (r: Tab)
        ensures
            r == Tab::One,
    {
        Tab::One
    }
}

/// What a screen answers to a key: interpreted at once by its owner, never
/// queued.
#[derive(Clone, Copy, Debug, PartialEq, Eq, Structural)]
pub enum Command {
    /// End the application.
    Quit,
    /// Make the given tab the active one.
    SwitchTab(Tab),
    /// Nothing to do.
    Nothing,
}

/// An application event, consumed exactly once by the loop.
#[derive(Clone, Copy, Debug, PartialEq, Eq, Structural)]
pub enum Event {
    /// A key was pressed.
    Key(Key),
    /// The logic timer fired.
    Tick,
    /// The render timer fired.
    Frame,
    /// A screen asked to end the application.
    Quit,
}

} // verus!
