//! What holds of every run of the loop and of every selection of screens.

use vstd::prelude::*;
use crate::app::{Action, AppState, Arrival, Phase, Signal};
use crate::event::{Command, Event, Tab};
use crate::key::Key;
use crate::screen_manager::{reply_of, selection_after};
use crate::screens::Screen;

verus! {

/// A run starts in a reachable state.
pub proof fn lemma_initial_inv(screen: Screen)
    ensures
        AppState::initial(screen).inv(),
{
    let s = AppState::initial(screen);
    assert(s.enqueued =~= s.dispatched + s.pending);
}

/// One signal leads from a reachable state to a reachable state.
pub proof fn lemma_next_inv(s: AppState, signal: Signal)
    requires
        s.inv(),
    ensures
        s.next(signal).inv(),
{
    let t = s.next(signal);
    assert(t.enqueued =~= t.dispatched + t.pending);
}

/// Any sequence of signals leads from a reachable state to a reachable state.
pub proof fn lemma_after_inv(s: AppState, signals: Seq<Signal>)
    requires
        s.inv(),
    ensures
        s.after(signals).inv(),
    decreases signals.len(),
{
    if signals.len() > 0 {
        lemma_after_inv(s, signals.drop_last());
        lemma_next_inv(s.after(signals.drop_last()), signals.last());
    }
}

/// One signal only ever appends to the two histories.
pub proof fn lemma_next_extends(s: AppState, signal: Signal)
    ensures
        s.dispatched.is_prefix_of(s.next(signal).dispatched),
        s.enqueued.is_prefix_of(s.next(signal).enqueued),
{
}

/// Events are dispatched in the order of their enqueuing, each at most once,
/// and none is lost: whatever the signals, the events dispatched so far
/// followed by the events still on the bus are the events enqueued so far,
/// and both histories only ever grow at their end.
pub proof fn lemma_dispatch_in_order(s: AppState, signals: Seq<Signal>)
    requires
        s.inv(),
    ensures
        s.after(signals).enqueued == s.after(signals).dispatched + s.after(signals).pending,
        s.after(signals).dispatched.is_prefix_of(s.after(signals).enqueued),
        s.dispatched.is_prefix_of(s.after(signals).dispatched),
        s.enqueued.is_prefix_of(s.after(signals).enqueued),
    decreases signals.len(),
{
    lemma_after_inv(s, signals);
    if signals.len() > 0 {
        let mid = s.after(signals.drop_last());
        lemma_dispatch_in_order(s, signals.drop_last());
        lemma_next_extends(mid, signals.last());
    }
}

/// While the loop waits, a ready bus hands out its oldest event, and that
/// event is the next one dispatched.
pub proof fn lemma_oldest_first(s: AppState)
    requires
        s.phase == Phase::Waiting,
        s.pending.len() > 0,
    ensures
        s.next(Signal::Arrived(Arrival::BusReady)).dispatched == s.dispatched.push(s.pending[0]),
        s.next(Signal::Arrived(Arrival::BusReady)).enqueued.take(s.enqueued.len() as int)
            == s.enqueued,
{
    let t = s.next(Signal::Arrived(Arrival::BusReady));
    assert(t.enqueued.take(s.enqueued.len() as int) =~= s.enqueued);
}

/// The dispatch of a quit sets the quit flag and ends the waiting.
pub proof fn lemma_quit_dispatched(s: AppState)
    requires
        s.phase == Phase::Waiting,
        s.pending.len() > 0,
        s.pending[0] == Event::Quit,
    ensures
        s.next(Signal::Arrived(Arrival::BusReady)).should_quit,
        s.next(Signal::Arrived(Arrival::BusReady)).phase == Phase::Leaving,
{
}

/// The quit flag is never reset.
pub proof fn lemma_quit_monotonic(s: AppState, signals: Seq<Signal>)
    requires
        s.should_quit,
    ensures
        s.after(signals).should_quit,
    decreases signals.len(),
{
    if signals.len() > 0 {
        lemma_quit_monotonic(s, signals.drop_last());
    }
}

/// Once the quit flag is set nothing is dispatched or enqueued any more, and
/// the selection stays: whatever signals follow, the histories, the bus and
/// the selected screen are as they were.
pub proof fn lemma_quit_is_final(s: AppState, signals: Seq<Signal>)
    requires
        s.inv(),
        s.should_quit,
    ensures
        s.after(signals).should_quit,
        s.after(signals).dispatched == s.dispatched,
        s.after(signals).enqueued == s.enqueued,
        s.after(signals).pending == s.pending,
        s.after(signals).screen == s.screen,
    decreases signals.len(),
{
    if signals.len() > 0 {
        lemma_quit_is_final(s, signals.drop_last());
        lemma_after_inv(s, signals.drop_last());
    }
}

/// A fatal error ends dispatching in the same way as a quit.
pub proof fn lemma_failure_is_final(s: AppState, signals: Seq<Signal>)
    requires
        s.inv(),
        s.failure.is_some(),
    ensures
        s.after(signals).failure == s.failure,
        s.after(signals).dispatched == s.dispatched,
        s.after(signals).enqueued == s.enqueued,
        s.after(signals).screen == s.screen,
    decreases signals.len(),
{
    if signals.len() > 0 {
        lemma_failure_is_final(s, signals.drop_last());
        lemma_after_inv(s, signals.drop_last());
    }
}

/// A switch to the selected tab changes nothing, and a switch carried out
/// twice selects what it selects when carried out once.
pub proof fn lemma_switch_idempotent(screen: Screen, tab: Tab)
    ensures
        selection_after(Screen::Tab(tab), Command::SwitchTab(tab)) == Screen::Tab(tab),
        selection_after(selection_after(screen, Command::SwitchTab(tab)), Command::SwitchTab(tab))
            == selection_after(screen, Command::SwitchTab(tab)),
{
}

/// A number key selects its tab from either tab, so pressing the number of
/// the selected tab changes nothing.
pub proof fn lemma_number_keys_select(tab: Tab)
    ensures
        selection_after(Screen::Tab(tab), reply_of(Screen::Tab(tab), Key::Char('1')))
            == Screen::Tab(Tab::One),
        selection_after(Screen::Tab(tab), reply_of(Screen::Tab(tab), Key::Char('2')))
            == Screen::Tab(Tab::Two),
{
}

/// The tabulator key leads from a tab to the other tab, and a second one
/// leads back.
pub proof fn lemma_tab_key_toggles(tab: Tab)
    ensures
        selection_after(Screen::Tab(tab), reply_of(Screen::Tab(tab), Key::Tab)) == Screen::Tab(
            tab.other(),
        ),
        selection_after(
            Screen::Tab(tab.other()),
            reply_of(Screen::Tab(tab.other()), Key::Tab),
        ) == Screen::Tab(tab),
{
}

/// The terminal mode is entered at most once and left at most once, never
/// left before it was entered, and never kept at the end of a run: in every
/// state of every run, leaving implies entering; the loop asks to enter only
/// before the mode was entered and asks to leave only while it is held; and
/// when the run is over, the mode was left exactly if it was entered.
pub proof fn lemma_lifecycle_paired(screen: Screen, signals: Seq<Signal>)
    ensures
        ({
            let t = AppState::initial(screen).after(signals);
            &&& t.left ==> t.entered
            &&& t.action() == Action::Enter ==> !t.entered && !t.left
            &&& t.action() == Action::Leave ==> t.entered && !t.left
            &&& t.action() == Action::Wait || t.action() == Action::Draw ==> t.entered && !t.left
            &&& t.phase == Phase::Done ==> t.entered == t.left
        }),
{
    lemma_initial_inv(screen);
    lemma_after_inv(AppState::initial(screen), signals);
}

/// What was entered stays entered and what was left stays left; the mode is
/// entered only by a successful enter report while entering, and left only
/// by a leave report while leaving.
pub proof fn lemma_lifecycle_steps(s: AppState, signal: Signal)
    ensures
        s.entered ==> s.next(signal).entered,
        s.left ==> s.next(signal).left,
        !s.entered && s.next(signal).entered ==> s.phase == Phase::Entering && signal
            == Signal::Entered(true),
        !s.left && s.next(signal).left ==> s.phase == Phase::Leaving && signal == Signal::Left,
{
}

/// A run that failed after it entered the terminal mode still asks to leave
/// it before it exits, and exits with that failure.
pub proof fn lemma_failure_leaves(s: AppState)
    requires
        s.inv(),
        s.failure.is_some(),
        s.entered,
        s.phase != Phase::Done,
    ensures
        s.action() == Action::Leave,
        s.next(Signal::Left).action() == Action::Exit(s.failure),
        s.next(Signal::Left).left,
{
}

/// A drawing is asked for exactly when a frame event is dispatched.
pub proof fn lemma_draw_per_frame(s: AppState, signal: Signal)
    requires
        s.inv(),
        s.phase != Phase::Drawing,
    ensures
        s.next(signal).action() == Action::Draw <==> s.phase == Phase::Waiting && signal
            == Signal::Arrived(Arrival::BusReady) && s.pending.len() > 0 && s.pending[0]
            == Event::Frame,
{
}

/// While the loop waits, a due pulse is always taken, however many events
/// are queued: it is put behind them and the loop goes on waiting.
pub proof fn lemma_pulse_taken(s: AppState)
    requires
        s.phase == Phase::Waiting,
    ensures
        s.next(Signal::Arrived(Arrival::TickDue)).pending == s.pending.push(Event::Tick),
        s.next(Signal::Arrived(Arrival::FrameDue)).pending == s.pending.push(Event::Frame),
        s.next(Signal::Arrived(Arrival::TickDue)).phase == Phase::Waiting,
        s.next(Signal::Arrived(Arrival::FrameDue)).phase == Phase::Waiting,
{
}

} // verus!
