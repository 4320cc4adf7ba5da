//! The leaf screens and the two capabilities that every screen has.

use vstd::prelude::*;
use crate::event::{Command, Tab};
use crate::key::Key;

verus! {

/// Which screen a drawing is for.
#[derive(Clone, Copy, Debug, PartialEq, Eq, Structural)]
pub enum Screen {
    /// The single screen of an application without tabs.
    Main,
    /// One tab of the tabbed container.
    Tab(Tab),
}

/// A rectangle of terminal cells.
#[derive(Clone, Copy, Debug, PartialEq, Eq, Structural)]
pub struct Area {
    pub x: u16,
    pub y: u16,
    pub width: u16,
    pub height: u16,
}

/// An order to render one screen into one area. The renderer decides what the
/// screen looks like.
#[derive(Clone, Copy, Debug, PartialEq, Eq, Structural)]
pub struct DrawCall {
    pub screen: Screen,
    pub area: Area,
}

/// A screen that answers keys.
pub trait Eventful {
    /// The command with which the screen answers the key.
    spec fn reply(&self, key: Key) -> Command;

    /// Handles one key and says what the owner has to do.
    fn handle_key(&mut self, key: &Key) -> (r: Command)
        ensures
            r == old(self).reply(*key),
    ;
}

/// A screen that can be drawn.
pub trait Renderable {
    /// The screen that a drawing of this value shows.
    spec fn shown(&self) -> Screen;

    /// Orders the drawing of this screen, and of nothing else, into `size`.
    fn draw(&self, size: Area) -> (r: DrawCall)
        ensures
            r == (DrawCall { screen: self.shown(), area: size }),
    ;
}

/// The answer of the main screen: `q` quits.
pub open spec fn main_reply(key: Key) -> Command {
    if key == Key::Char('q') {
        Command::Quit
    } else {
        Command::Nothing
    }
}

/// The answer of a tab: `q` quits, the tabulator switches to the other tab.
pub open spec fn tab_reply(tab: Tab, key: Key) -> Command {
    if key == Key::Char('q') {
        Command::Quit
    } else if key == Key::Tab {
        Command::SwitchTab(tab.other())
    } else {
        Command::Nothing
    }
}

/// The single screen of an application without tabs.
#[derive(Clone, Copy, Debug, PartialEq, Eq, Structural)]
pub struct Main {}

/// The first tab.
#[derive(Clone, Copy, Debug, PartialEq, Eq, Structural)]
pub struct TabOne {}

/// The second tab.
#[derive(Clone, Copy, Debug, PartialEq, Eq, Structural)]
pub struct TabTwo {}

impl Main {
    pub fn new() -> (r: Main)
        ensures
            r == (Main {  }),
    {
        Main {  }
    }
}

impl Eventful for Main {
    open spec fn reply(&self, key: Key) -> Command {
        main_reply(key)
    }

    fn handle_key(&mut self, key: &Key) -> (r: Command)
        ensures
            *final(self) == *old(self),
    {
        match key {
            Key::Char('q') => Command::Quit,
            _ => Command::Nothing,
        }
    }
}

impl Renderable for Main {
    open spec fn shown(&self) -> Screen {
        Screen::Main
    }

    fn draw(&self, size: Area) -> (r: DrawCall) {
        DrawCall { screen: Screen::Main, area: size }
    }
}

impl Eventful for TabOne {
    open spec fn reply(&self, key: Key) -> Command {
        tab_reply(Tab::One, key)
    }

    fn handle_key(&mut self, key: &Key) -> (r: Command)
        ensures
            *final(self) == *old(self),
    {
        match key {
            Key::Char('q') => Command::Quit,
            Key::Tab => Command::SwitchTab(Tab::Two),
            _ => Command::Nothing,
        }
    }
}

impl Renderable for TabOne {
    open spec fn shown(&self) -> Screen {
        Screen::Tab(Tab::One)
    }

    fn draw(&self, size: Area) -> (r: DrawCall) {
        DrawCall { screen: Screen::Tab(Tab::One), area: size }
    }
}

impl Eventful for TabTwo {
    open spec fn reply(&self, key: Key) -> Command {
        tab_reply(Tab::Two, key)
    }

    fn handle_key(&mut self, key: &Key) -> (r: Command)
        ensures
            *final(self) == *old(self),
    {
        match key {
            Key::Char('q') => Command::Quit,
            Key::Tab => Command::SwitchTab(Tab::One),
            _ => Command::Nothing,
        }
    }
}

impl Renderable for TabTwo {
    open spec fn shown(&self) -> Screen {
        Screen::Tab(Tab::Two)
    }

    fn draw(&self, size: Area) -> (r: DrawCall) {
        DrawCall { screen: Screen::Tab(Tab::Two), area: size }
    }
}

} // verus!
