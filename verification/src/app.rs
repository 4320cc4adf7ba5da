//! The event loop, as a state machine.
//!
//! The loop itself never waits and never touches the terminal. It answers
//! every signal with the next action; the program around it performs the
//! action and reports back with the next signal.

use vstd::prelude::*;
use crate::bus::CommandBus;
use crate::clock::Clock;
use crate::error::Error;
use crate::event::{Command, Event, Tab};
use crate::key::RawInput;
use crate::clock::{period_of, rate_ok};
use crate::screen_manager::{reply_of, selection_after, ScreenManager};
use crate::screens::{Area, DrawCall, Renderable, Screen};

verus! {

/// Where a run stands: what the loop is waiting to hear.
#[derive(Clone, Copy, Debug, PartialEq, Eq, Structural)]
pub enum Phase {
    /// The terminal mode is being entered.
    Entering,
    /// The loop waits for the first of its four sources.
    Waiting,
    /// A frame is being drawn.
    Drawing,
    /// The terminal mode is being left.
    Leaving,
    /// The run is over.
    Done,
}

/// What one pass of the loop found ready.
#[derive(Clone, Copy, Debug, PartialEq, Eq, Structural)]
pub enum Arrival {
    /// The tick pulse is due.
    TickDue,
    /// The frame pulse is due.
    FrameDue,
    /// The input stream produced an item.
    Input(RawInput),
    /// The input stream ended or failed.
    InputLost,
    /// The command bus has an event to hand out.
    BusReady,
}

/// What the program reports to the loop.
#[derive(Clone, Copy, Debug, PartialEq, Eq, Structural)]
pub enum Signal {
    /// Entering the terminal mode succeeded (`true`) or failed.
    Entered(bool),
    /// One source was ready.
    Arrived(Arrival),
    /// Drawing the frame succeeded (`true`) or failed.
    Drawn(bool),
    /// The terminal mode was left.
    Left,
}

/// What the loop asks the program to do next.
#[derive(Clone, Copy, Debug, PartialEq, Eq, Structural)]
pub enum Action {
    /// Enter the terminal mode, then report [`Signal::Entered`].
    Enter,
    /// Wait for the first ready source, then report [`Signal::Arrived`].
    Wait,
    /// Draw the selected screen over the whole terminal, then report
    /// [`Signal::Drawn`].
    Draw,
    /// Leave the terminal mode, then report [`Signal::Left`].
    Leave,
    /// Return to the caller: cleanly, or with the error that ended the run.
    Exit(Option<Error>),
}

/// The state of a run, as mathematics.
pub struct AppState {
    pub phase: Phase,
    /// Set by the dispatch of [`Event::Quit`], never reset.
    pub should_quit: bool,
    /// The error that ended the run, if one did.
    pub failure: Option<Error>,
    /// The selected screen.
    pub screen: Screen,
    /// The events on the command bus, oldest first.
    pub pending: Seq<Event>,
    /// Whether the terminal mode was entered.
    pub entered: bool,
    /// Whether the terminal mode was left again.
    pub left: bool,
    /// Every event ever enqueued, in the order of enqueuing.
    pub enqueued: Seq<Event>,
    /// Every event ever dispatched, in the order of dispatch.
    pub dispatched: Seq<Event>,
}

impl AppState {
    /// The state before anything happened.
    pub open spec fn initial(screen: Screen) -> AppState {
        AppState {
            phase: Phase::Entering,
            should_quit: false,
            failure: None,
            screen,
            pending: Seq::empty(),
            entered: false,
            left: false,
            enqueued: Seq::empty(),
            dispatched: Seq::empty(),
        }
    }

    /// The state after an event was put on the bus.
    pub open spec fn enqueue(self, event: Event) -> AppState {
        AppState {
            pending: self.pending.push(event),
            enqueued: self.enqueued.push(event),
            ..self
        }
    }

    /// The state after a fatal error: the loop stops and the terminal mode
    /// is to be left.
    pub open spec fn fail(self, error: Error) -> AppState {
        AppState { phase: Phase::Leaving, failure: Some(error), ..self }
    }

    /// The state after the dispatch of one event that was taken off the bus.
    pub open spec fn dispatch(self, event: Event) -> AppState {
        match event {
            Event::Key(key) => {
                let cmd = reply_of(self.screen, key);
                let moved = AppState { screen: selection_after(self.screen, cmd), ..self };
                if cmd == Command::Quit {
                    moved.enqueue(Event::Quit)
                } else {
                    moved
                }
            },
            Event::Frame => AppState { phase: Phase::Drawing, ..self },
            Event::Tick => self,
            Event::Quit => AppState { should_quit: true, phase: Phase::Leaving, ..self },
        }
    }

    /// The state after one pass of the waiting loop. Exactly one source is
    /// served: a pulse or a key press is enqueued, any other input item is
    /// dropped, a lost input stream is fatal, and a ready bus hands out its
    /// oldest event for dispatch.
    pub open spec fn arrive(self, arrival: Arrival) -> AppState {
        match arrival {
            Arrival::TickDue => self.enqueue(Event::Tick),
            Arrival::FrameDue => self.enqueue(Event::Frame),
            Arrival::Input(raw) => match raw.pressed() {
                Some(key) => self.enqueue(Event::Key(key)),
                None => self,
            },
            Arrival::InputLost => self.fail(Error::Input),
            Arrival::BusReady => if self.pending.len() == 0 {
                self
            } else {
                let event = self.pending[0];
                (AppState {
                    pending: self.pending.skip(1),
                    dispatched: self.dispatched.push(event),
                    ..self
                }).dispatch(event)
            },
        }
    }

    /// The state after a signal. A signal that the phase does not wait for
    /// changes nothing.
    pub open spec fn next(self, signal: Signal) -> AppState {
        match (self.phase, signal) {
            (Phase::Entering, Signal::Entered(true)) => AppState {
                phase: Phase::Waiting,
                entered: true,
                ..self
            },
            (Phase::Entering, Signal::Entered(false)) => AppState {
                phase: Phase::Done,
                failure: Some(Error::Terminal),
                ..self
            },
            (Phase::Waiting, Signal::Arrived(arrival)) => self.arrive(arrival),
            (Phase::Drawing, Signal::Drawn(true)) => AppState { phase: Phase::Waiting, ..self },
            (Phase::Drawing, Signal::Drawn(false)) => self.fail(Error::Terminal),
            (Phase::Leaving, Signal::Left) => AppState { phase: Phase::Done, left: true, ..self },
            _ => self,
        }
    }

    /// The action that the state asks for.
    pub open spec fn action(self) -> Action {
        match self.phase {
            Phase::Entering => Action::Enter,
            Phase::Waiting => Action::Wait,
            Phase::Drawing => Action::Draw,
            Phase::Leaving => Action::Leave,
            Phase::Done => Action::Exit(self.failure),
        }
    }

    /// The state after a whole sequence of signals, first to last.
    pub open spec fn after(self, signals: Seq<Signal>) -> AppState
        decreases signals.len(),
    {
        if signals.len() == 0 {
            self
        } else {
            self.after(signals.drop_last()).next(signals.last())
        }
    }

    /// What holds of every state that a run can reach.
    pub open spec fn inv(self) -> bool {
        &&& self.enqueued == self.dispatched + self.pending
        &&& match self.phase {
            Phase::Entering => !self.entered && !self.left && !self.should_quit
                && self.failure.is_none(),
            Phase::Waiting | Phase::Drawing => self.entered && !self.left && !self.should_quit
                && self.failure.is_none(),
            Phase::Leaving => self.entered && !self.left && (self.should_quit
                != self.failure.is_some()),
            Phase::Done => self.entered == self.left && (self.should_quit
                != self.failure.is_some()) && (!self.entered ==> self.failure == Some(
                Error::Terminal,
            )),
        }
    }
}

/// The event loop: owner of the clock, the command bus and the screens.
pub struct App {
    phase: Phase,
    should_quit: bool,
    failure: Option<Error>,
    entered: bool,
    left: bool,
    clock: Clock,
    bus: CommandBus,
    screen_manager: ScreenManager,
    enqueued: Ghost<Seq<Event>>,
    dispatched: Ghost<Seq<Event>>,
}

impl View for App {
    type V = AppState;

    closed spec fn view(&self) -> AppState {
        AppState {
            phase: self.phase,
            should_quit: self.should_quit,
            failure: self.failure,
            screen: self.screen_manager.selection(),
            pending: self.bus.pending(),
            entered: self.entered,
            left: self.left,
            enqueued: self.enqueued@,
            dispatched: self.dispatched@,
        }
    }
}

impl App {
    /// Whether the loop is in a state that a run can reach, with an open bus.
    pub closed spec fn wf(&self) -> bool {
        self@.inv() && !self.bus.closed()
    }

    /// The clock that the loop was made with.
    pub closed spec fn clock_spec(&self) -> Clock {
        self.clock
    }

    /// A loop over the tabbed screens for the given rates in pulses per
    /// second. Fails with [`Error::Config`] exactly when the clock refuses a
    /// rate.
    pub fn new(frame_rate: u32, tick_rate: u32) -> (r: Result<App, Error>)
        ensures
            rate_ok(frame_rate) && rate_ok(tick_rate) ==> r.is_ok() && r.unwrap().wf()
                && r.unwrap()@ == AppState::initial(Screen::Tab(Tab::One))
                && r.unwrap().clock_spec().frame_period_spec() == period_of(frame_rate)
                && r.unwrap().clock_spec().tick_period_spec() == period_of(tick_rate),
            !(rate_ok(frame_rate) && rate_ok(tick_rate)) ==> (r matches Err(e) && e
                == Error::Config),
    {
        match Clock::new(frame_rate, tick_rate) {
            Ok(clock) => Ok(App::with_screens(clock, ScreenManager::new())),
            Err(_) => Err(Error::Config),
        }
    }

    /// A loop over the given screens, driven by the given clock.
    pub fn with_screens(clock: Clock, screen_manager: ScreenManager) -> (r: App)
        ensures
            r.wf(),
            r@ == AppState::initial(screen_manager.selection()),
            r.clock_spec() == clock,
    {
        let r = App {
            phase: Phase::Entering,
            should_quit: false,
            failure: None,
            entered: false,
            left: false,
            clock,
            bus: CommandBus::new(),
            screen_manager,
            enqueued: Ghost(Seq::empty()),
            dispatched: Ghost(Seq::empty()),
        };
        assert(r@.enqueued =~= r@.dispatched + r@.pending);
        r
    }

    /// Puts an event on the bus.
    fn enqueue(&mut self, event: Event)
        requires
            old(self).wf(),
            old(self).phase == Phase::Waiting,
        ensures
            final(self).wf(),
            final(self)@ == old(self)@.enqueue(event),
            final(self).clock_spec() == old(self).clock_spec(),
    {
        let sent = self.bus.send(event);
        self.enqueued = Ghost(self.enqueued@.push(event));
        match sent {
            Ok(()) => {},
            // The loop never closes its own bus: no send of its own fails.
            Err(error) => {
                self.failure = Some(error);
                self.phase = Phase::Leaving;
            },
        }
        assert(self@.enqueued =~= self@.dispatched + self@.pending);
    }

    /// Dispatches one event that was taken off the bus: a key goes to the
    /// screens, a frame asks for a drawing, a tick does nothing, a quit ends
    /// the loop.
    fn handle_event(&mut self, event: Event)
        requires
            old(self).wf(),
            old(self).phase == Phase::Waiting,
        ensures
            final(self).wf(),
            final(self)@ == old(self)@.dispatch(event),
            final(self).clock_spec() == old(self).clock_spec(),
    {
        match event {
            Event::Key(key) => {
                let handled = self.screen_manager.handle_key(&key, &mut self.bus);
                proof {
                    if reply_of(old(self).screen_manager.selection(), key) == Command::Quit {
                        self.enqueued@ = self.enqueued@.push(Event::Quit);
                    }
                }
                match handled {
                    Ok(()) => {},
                    // A screen can fail only on a closed bus, and this one is open.
                    Err(error) => {
                        self.failure = Some(error);
                        self.phase = Phase::Leaving;
                    },
                }
                assert(self@.enqueued =~= self@.dispatched + self@.pending);
            },
            Event::Frame => {
                self.phase = Phase::Drawing;
            },
            Event::Tick => {},
            Event::Quit => {
                self.should_quit = true;
                self.phase = Phase::Leaving;
            },
        }
    }

    /// Serves the one source that was ready.
    fn arrive(&mut self, arrival: Arrival)
        requires
            old(self).wf(),
            old(self).phase == Phase::Waiting,
        ensures
            final(self).wf(),
            final(self)@ == old(self)@.arrive(arrival),
            final(self).clock_spec() == old(self).clock_spec(),
    {
        match arrival {
            Arrival::TickDue => self.enqueue(Event::Tick),
            Arrival::FrameDue => self.enqueue(Event::Frame),
            Arrival::Input(raw) => match raw.key_press() {
                Some(key) => self.enqueue(Event::Key(key)),
                None => {},
            },
            Arrival::InputLost => {
                self.failure = Some(Error::Input);
                self.phase = Phase::Leaving;
            },
            Arrival::BusReady => match self.bus.try_recv() {
                Some(event) => {
                    self.dispatched = Ghost(self.dispatched@.push(event));
                    assert(self@.enqueued =~= self@.dispatched + self@.pending);
                    self.handle_event(event)
                },
                None => {},
            },
        }
    }

    /// Takes one signal and answers with the action to perform next. The
    /// loop moves as [`AppState::next`] says; the answer is the action that
    /// the new state asks for.
    pub fn step(&mut self, signal: Signal) -> (action: Action)
        requires
            old(self).wf(),
        ensures
            final(self).wf(),
            final(self)@ == old(self)@.next(signal),
            final(self).clock_spec() == old(self).clock_spec(),
            action == final(self)@.action(),
    {
        match self.phase {
            Phase::Entering => match signal {
                Signal::Entered(true) => {
                    self.entered = true;
                    self.phase = Phase::Waiting;
                },
                Signal::Entered(false) => {
                    self.failure = Some(Error::Terminal);
                    self.phase = Phase::Done;
                },
                _ => {},
            },
            Phase::Waiting => match signal {
                Signal::Arrived(arrival) => self.arrive(arrival),
                _ => {},
            },
            Phase::Drawing => match signal {
                Signal::Drawn(true) => {
                    self.phase = Phase::Waiting;
                },
                Signal::Drawn(false) => {
                    self.failure = Some(Error::Terminal);
                    self.phase = Phase::Leaving;
                },
                _ => {},
            },
            Phase::Leaving => match signal {
                Signal::Left => {
                    self.left = true;
                    self.phase = Phase::Done;
                },
                _ => {},
            },
            Phase::Done => {},
        }
        self.action()
    }

    /// The action that the loop is waiting to see performed.
    pub fn action(&self) -> (action: Action)
        ensures
            action == self@.action(),
    {
        match self.phase {
            Phase::Entering => Action::Enter,
            Phase::Waiting => Action::Wait,
            Phase::Drawing => Action::Draw,
            Phase::Leaving => Action::Leave,
            Phase::Done => Action::Exit(self.failure),
        }
    }

    /// Feeds a whole sequence of signals through the loop, first to last, and
    /// answers with the action that is due after the last.
    pub fn run(&mut self, signals: &Vec<Signal>) -> (action: Action)
        requires
            old(self).wf(),
        ensures
            final(self).wf(),
            final(self)@ == old(self)@.after(signals@),
            final(self).clock_spec() == old(self).clock_spec(),
            action == final(self)@.action(),
    {
        let mut i: usize = 0;
        while i < signals.len()
            invariant
                i <= signals.len(),
                self.wf(),
                self@ == old(self)@.after(signals@.take(i as int)),
                self.clock_spec() == old(self).clock_spec(),
            decreases signals.len() - i,
        {
            proof {
                assert(signals@.take(i + 1).drop_last() =~= signals@.take(i as int));
            }
            self.step(signals[i]);
            i += 1;
        }
        proof {
            assert(signals@.take(i as int) =~= signals@);
        }
        self.action()
    }

    /// The order to draw the selected screen, and no other, into `area`.
    pub fn draw(&self, area: Area) -> (r: DrawCall)
        ensures
            r == (DrawCall { screen: self@.screen, area }),
    {
        self.screen_manager.draw(area)
    }

    /// Where the run stands.
    pub fn phase(&self) -> (r: Phase)
        ensures
            r == self@.phase,
    {
        self.phase
    }

    /// Whether the terminal mode is held: entered and not yet left.
    pub fn holds_terminal(&self) -> (r: bool)
        ensures
            r == (self@.entered && !self@.left),
    {
        self.entered && !self.left
    }

    /// Whether a quit was dispatched.
    pub fn should_quit(&self) -> (r: bool)
        ensures
            r == self@.should_quit,
    {
        self.should_quit
    }

    /// The selected screen.
    pub fn current_screen(&self) -> (r: Screen)
        ensures
            r == self@.screen,
    {
        self.screen_manager.current()
    }

    /// The number of events that wait on the bus.
    pub fn pending(&self) -> (r: usize)
        ensures
            r == self@.pending.len(),
    {
        self.bus.len()
    }

    /// The clock that the loop was made with.
    pub fn clock(&self) -> (r: Clock)
        ensures
            r == self.clock_spec(),
    {
        self.clock
    }
}

} // verus!
