//! The screen manager: owner of every screen and of the selection among them.

use vstd::prelude::*;
use crate::bus::CommandBus;
use crate::error::Error;
use crate::event::{Command, Event, Tab};
use crate::key::Key;
use crate::screens::{
    main_reply, tab_reply, Area, DrawCall, Eventful, Main, Renderable, Screen, TabOne, TabTwo,
};

verus! {

/// The answer of the tabbed container while `active` is its selected tab:
/// `1` and `2` select a tab by its number, every other key is answered by the
/// selected tab.
pub open spec fn tabs_reply(active: Tab, key: Key) -> Command {
    if key == Key::Char('1') {
        Command::SwitchTab(Tab::One)
    } else if key == Key::Char('2') {
        Command::SwitchTab(Tab::Two)
    } else {
        tab_reply(active, key)
    }
}

/// The command with which the selected screen answers a key.
pub open spec fn reply_of(screen: Screen, key: Key) -> Command {
    match screen {
        Screen::Main => main_reply(key),
        Screen::Tab(tab) => tabs_reply(tab, key),
    }
}

/// The selection after a command: a switch selects its target, anything else
/// leaves the selection alone.
pub open spec fn selection_after(screen: Screen, cmd: Command) -> Screen {
    match cmd {
        Command::SwitchTab(tab) => Screen::Tab(tab),
        _ => screen,
    }
}

/// The queue of the bus after a command: a quit on an open bus appends
/// [`Event::Quit`], anything else leaves the queue alone.
pub open spec fn pending_after(pending: Seq<Event>, closed: bool, cmd: Command) -> Seq<Event> {
    if cmd == Command::Quit && !closed {
        pending.push(Event::Quit)
    } else {
        pending
    }
}

/// Whether a command can be carried out: only a quit on a closed bus cannot.
pub open spec fn outcome_of(closed: bool, cmd: Command) -> Result<(), Error> {
    if cmd == Command::Quit && closed {
        Err(Error::Channel)
    } else {
        Ok(())
    }
}

/// Owns the three screens and knows which one is selected. Screens that are
/// not selected stay as they are: a switch neither creates nor destroys one.
pub struct ScreenManager {
    current: Screen,
    main: Main,
    tab_one: TabOne,
    tab_two: TabTwo,
}

impl ScreenManager {
    /// The selected screen.
    pub closed spec fn selection(&self) -> Screen {
        self.current
    }

    /// The screens that the manager owns, selected or not.
    pub closed spec fn nodes(&self) -> (Main, TabOne, TabTwo) {
        (self.main, self.tab_one, self.tab_two)
    }

    /// A manager of the tabbed layout, with the first tab selected.
    pub fn new() -> (r: ScreenManager)
        ensures
            r.selection() == Screen::Tab(Tab::One),
    {
        ScreenManager {
            current: Screen::Tab(Tab::default()),
            main: Main::new(),
            tab_one: TabOne {  },
            tab_two: TabTwo {  },
        }
    }

    /// A manager of the layout without tabs, with the main screen selected.
    pub fn with_main() -> (r: ScreenManager)
        ensures
            r.selection() == Screen::Main,
    {
        ScreenManager {
            current: Screen::Main,
            main: Main::new(),
            tab_one: TabOne {  },
            tab_two: TabTwo {  },
        }
    }

    /// Returns the selected screen.
    pub fn current(&self) -> (r: Screen)
        ensures
            r == self.selection(),
    {
        self.current
    }

    /// Selects the other tab. The main screen has no other tab and stays
    /// selected.
    pub fn toggle_tab(&mut self)
        ensures
            final(self).nodes() == old(self).nodes(),
            final(self).selection() == (match old(self).selection() {
                Screen::Tab(tab) => Screen::Tab(tab.other()),
                Screen::Main => Screen::Main,
            }),
    {
        self.current =
        match self.current {
            Screen::Tab(tab) => Screen::Tab(tab.toggled()),
            Screen::Main => Screen::Main,
        }
    }

    /// Carries out one command of a screen: a quit is sent on the bus as
    /// [`Event::Quit`], a switch replaces the selection, nothing else happens.
    /// Fails with [`Error::Channel`] exactly for a quit on a closed bus.
    pub fn apply(&mut self, cmd: Command, bus: &mut CommandBus) -> (r: Result<(), Error>)
        ensures
            r == outcome_of(old(bus).closed(), cmd),
            final(self).selection() == selection_after(old(self).selection(), cmd),
            final(self).nodes() == old(self).nodes(),
            final(bus).pending() == pending_after(old(bus).pending(), old(bus).closed(), cmd),
            final(bus).closed() == old(bus).closed(),
    {
        match cmd {
            Command::Quit => bus.send(Event::Quit),
            Command::SwitchTab(tab) => {
                self.current = Screen::Tab(tab);
                Ok(())
            },
            Command::Nothing => Ok(()),
        }
    }

    /// Routes a key to the selected screen and carries out its answer.
    pub fn handle_key(&mut self, key: &Key, bus: &mut CommandBus) -> (r: Result<(), Error>)
        ensures
            r == outcome_of(old(bus).closed(), reply_of(old(self).selection(), *key)),
            final(self).selection() == selection_after(
                old(self).selection(),
                reply_of(old(self).selection(), *key),
            ),
            final(self).nodes() == old(self).nodes(),
            final(bus).pending() == pending_after(
                old(bus).pending(),
                old(bus).closed(),
                reply_of(old(self).selection(), *key),
            ),
            final(bus).closed() == old(bus).closed(),
    {
        let cmd = match self.current {
            Screen::Main => self.main.handle_key(key),
            Screen::Tab(tab) => match key {
                Key::Char('1') => Command::SwitchTab(Tab::One),
                Key::Char('2') => Command::SwitchTab(Tab::Two),
                _ => match tab {
                    Tab::One => self.tab_one.handle_key(key),
                    Tab::Two => self.tab_two.handle_key(key),
                },
            },
        };
        self.apply(cmd, bus)
    }
}

impl Renderable for ScreenManager {
    closed spec fn shown(&self) -> Screen {
        self.current
    }

    /// Delegates to the selected screen, and to no other.
    fn draw(&self, size: Area) -> (r: DrawCall)
        ensures
            self.shown() == self.selection(),
    {
        match self.current {
            Screen::Main => self.main.draw(size),
            Screen::Tab(Tab::One) => self.tab_one.draw(size),
            Screen::Tab(Tab::Two) => self.tab_two.draw(size),
        }
    }
}

} // verus!
