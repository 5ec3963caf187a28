//! The loop that drives the countdown: what a key means, what each event
//! does to the timer, and when the loop ends.

use vstd::prelude::*;
use crate::timer::{lemma_ticks_count_down, Timer, TimerState};

verus! {

/// A key as the loop sees it.
#[derive(Clone, Copy, Debug, PartialEq, Eq, Structural)]
pub enum Key {
    /// A character key.
    Char(char),
    /// The escape key.
    Esc,
    /// Any other key.
    Other,
}

/// What the loop is fed.
#[derive(Clone, Copy, Debug, PartialEq, Eq, Structural)]
pub enum Event {
    /// A second has passed.
    Tick,
    /// The user asked to leave.
    KeyQuit,
    /// The user asked to pause or to resume.
    KeyPause,
    /// A key without a meaning.
    KeyOther,
}

/// Where the loop stands.
#[derive(Clone, Copy, Debug, PartialEq, Eq, Structural)]
pub enum State {
    /// Counting down.
    Running,
    /// Waiting for the pause key.
    Paused,
    /// Over; no event changes anything any more.
    Finished,
}

/// How the loop ended.
#[derive(Clone, Copy, Debug, PartialEq, Eq, Structural)]
pub enum Outcome {
    /// The countdown reached zero.
    Completed,
    /// The user left early.
    Quit,
}

/// What the caller does after an event.
#[derive(Clone, Copy, Debug, PartialEq, Eq, Structural)]
pub enum Action {
    /// Draw the timer again, then wait for the next event.
    Redraw,
    /// Wait for the next event; nothing changed.
    Ignore,
    /// Leave the loop.
    Stop(Outcome),
}

impl Event {
    /// The event that a key stands for: `q` and escape leave, `p` pauses
    /// and resumes, every other key means nothing.
    pub open spec fn of_key(key: Key) -> Event {
        match key {
            Key::Char(c) => if c == 'q' {
                Event::KeyQuit
            } else if c == 'p' {
                Event::KeyPause
            } else {
                Event::KeyOther
            },
            Key::Esc => Event::KeyQuit,
            Key::Other => Event::KeyOther,
        }
    }

    /// The event that `key` stands for.
    pub fn from_key(key: Key) -> (event: Event)
        ensures
            event == Event::of_key(key),
    {
        match key {
            Key::Char('q') | Key::Esc => Event::KeyQuit,
            Key::Char('p') => Event::KeyPause,
            _ => Event::KeyOther,
        }
    }
}

/// What a [`Countdown`] stands for: its timer, and how it ended once it
/// has.
pub struct LoopState {
    /// The timer.
    pub timer: TimerState,
    /// How the loop ended; `None` while it goes on.
    pub ended: Option<Outcome>,
}

impl LoopState {
    /// The loop before its first event: a fresh timer, running.
    pub open spec fn start(initial: nat) -> LoopState {
        LoopState { timer: TimerState::fresh(initial), ended: None }
    }

    /// Where the loop stands.
    pub open spec fn state(self) -> State {
        if self.ended is Some {
            State::Finished
        } else if self.timer.paused {
            State::Paused
        } else {
            State::Running
        }
    }

    /// The loop after `event`.
    ///
    /// A finished loop stays as it is. The quit key ends the loop early,
    /// the pause key toggles the timer, any other key changes nothing. A
    /// tick changes nothing while paused; while running it ends the loop
    /// if no time is left, and counts one second down if some is.
    pub open spec fn step(self, event: Event) -> LoopState {
        if self.ended is Some {
            self
        } else {
            match event {
                Event::KeyQuit => LoopState { ended: Some(Outcome::Quit), ..self },
                Event::KeyPause => LoopState { timer: self.timer.toggled(), ..self },
                Event::KeyOther => self,
                Event::Tick => if self.timer.paused {
                    self
                } else if self.timer.remaining == 0 {
                    LoopState { ended: Some(Outcome::Completed), ..self }
                } else {
                    LoopState { timer: self.timer.ticked(), ..self }
                },
            }
        }
    }

    /// What the caller does after `event`: stop when the loop is over,
    /// draw again after a tick or the pause key, nothing after a key
    /// without a meaning.
    pub open spec fn action(self, event: Event) -> Action {
        match self.step(event).ended {
            Some(outcome) => Action::Stop(outcome),
            None => if event == Event::KeyOther {
                Action::Ignore
            } else {
                Action::Redraw
            },
        }
    }

    /// The loop after each of `events` in turn.
    pub open spec fn run(self, events: Seq<Event>) -> LoopState
        decreases events.len(),
    {
        if events.len() == 0 {
            self
        } else {
            self.run(events.drop_last()).step(events.last())
        }
    }
}

/// `count` ticks in a row.
pub open spec fn ticks(count: nat) -> Seq<Event> {
    Seq::new(count, |i: int| Event::Tick)
}

/// A loop that is over stays as it is, whatever it is fed.
pub proof fn lemma_finished_is_final(state: LoopState, events: Seq<Event>)
    requires
        state.ended is Some,
    ensures
        state.run(events) == state,
    decreases events.len(),
{
    if events.len() > 0 {
        lemma_finished_is_final(state, events.drop_last());
    }
}

/// A loop started with `n` seconds and fed `k` ticks, `k` no more than
/// `n`, is still running and has ticked its timer `k` times.
pub proof fn lemma_loop_counts_down(n: nat, k: nat)
    requires
        k <= n,
    ensures
        LoopState::start(n).run(ticks(k)) == (LoopState {
            timer: TimerState::fresh(n).ticked_times(k),
            ended: None,
        }),
        LoopState::start(n).run(ticks(k)).timer.remaining == n - k,
    decreases k,
{
    lemma_ticks_count_down(n, k);
    if k > 0 {
        lemma_loop_counts_down(n, (k - 1) as nat);
        lemma_ticks_count_down(n, (k - 1) as nat);
        assert(ticks(k).drop_last() =~= ticks((k - 1) as nat));
    }
}

/// A loop started with `n` seconds ends with the tick after the `n`th:
/// that tick finds no time left, completes the countdown and leaves the
/// timer alone. No later event changes anything.
pub proof fn lemma_loop_stops_at_zero(n: nat, later: Seq<Event>)
    ensures
        LoopState::start(n).run(ticks(n)).action(Event::Tick) == Action::Stop(Outcome::Completed),
        LoopState::start(n).run(ticks(n + 1)) == (LoopState {
            timer: TimerState::fresh(n).ticked_times(n),
            ended: Some(Outcome::Completed),
        }),
        LoopState::start(n).run(ticks(n + 1)).timer.remaining == 0,
        LoopState::start(n).run(ticks(n + 1)).run(later) == LoopState::start(n).run(ticks(n + 1)),
{
    lemma_loop_counts_down(n, n);
    lemma_ticks_count_down(n, n);
    assert(ticks(n + 1).drop_last() =~= ticks(n));
    lemma_finished_is_final(LoopState::start(n).run(ticks(n + 1)), later);
}

/// A paused loop is the same after any number of ticks: no tick reaches
/// the timer.
pub proof fn lemma_paused_ignores_ticks(state: LoopState, count: nat)
    requires
        state.timer.paused,
    ensures
        state.run(ticks(count)) == state,
    decreases count,
{
    if count > 0 {
        lemma_paused_ignores_ticks(state, (count - 1) as nat);
        assert(ticks(count).drop_last() =~= ticks((count - 1) as nat));
    }
}

/// Pressing the pause key twice gives a loop that goes on back as it
/// was.
pub proof fn lemma_pause_twice(state: LoopState)
    ensures
        state.step(Event::KeyPause).step(Event::KeyPause) == state,
{
}

/// No event changes whether the face shows hours.
pub proof fn lemma_loop_keeps_hours_segment(state: LoopState, events: Seq<Event>)
    ensures
        state.run(events).timer.show_hours == state.timer.show_hours,
    decreases events.len(),
{
    if events.len() > 0 {
        lemma_loop_keeps_hours_segment(state, events.drop_last());
    }
}

/// The timer never counts below zero: no event raises the seconds left,
/// and only a tick on a running timer with time left lowers them, by one.
pub proof fn lemma_step_counts_at_most_one(state: LoopState, event: Event)
    ensures
        state.step(event).timer.remaining == state.timer.remaining
            || state.step(event).timer.remaining + 1 == state.timer.remaining,
        state.step(event).timer.remaining != state.timer.remaining ==> event == Event::Tick
            && state.state() == State::Running,
{
}

/// The countdown and the loop around it.
pub struct Countdown {
    timer: Timer,
    ended: Option<Outcome>,
}

impl View for Countdown {
    type V = LoopState;

    closed spec fn view(&self) -> LoopState {
        LoopState { timer: self.timer@, ended: self.ended }
    }
}

impl Countdown {
    /// A running loop with `initial_seconds` on its timer.
    pub fn new(initial_seconds: u64) -> (countdown: Countdown)
        ensures
            countdown@ == LoopState::start(initial_seconds as nat),
    {
        Countdown { timer: Timer::new(initial_seconds), ended: None }
    }

    /// Feeds one event to the loop and says what to do next.
    pub fn handle(&mut self, event: Event) -> (action: Action)
        ensures
            final(self)@ == old(self)@.step(event),
            action == old(self)@.action(event),
    {
        if let Some(outcome) = self.ended {
            return Action::Stop(outcome);
        }
        match event {
            Event::KeyQuit => {
                self.ended = Some(Outcome::Quit);
                Action::Stop(Outcome::Quit)
            },
            Event::KeyPause => {
                self.timer.toggle();
                Action::Redraw
            },
            Event::KeyOther => Action::Ignore,
            Event::Tick => {
                if self.timer.is_paused() {
                    Action::Redraw
                } else if self.timer.remaining() == 0 {
                    self.ended = Some(Outcome::Completed);
                    Action::Stop(Outcome::Completed)
                } else {
                    self.timer.tick();
                    Action::Redraw
                }
            },
        }
    }

    /// Where the loop stands.
    pub fn state(&self) -> (state: State)
        ensures
            state == self@.state(),
    {
        if self.ended.is_some() {
            State::Finished
        } else if self.timer.is_paused() {
            State::Paused
        } else {
            State::Running
        }
    }

    /// How the loop ended, once it has.
    pub fn outcome(&self) -> (outcome: Option<Outcome>)
        ensures
            outcome == self@.ended,
    {
        self.ended
    }

    /// The timer, to draw it.
    pub fn timer(&self) -> (timer: &Timer)
        ensures
            timer@ == self@.timer,
    {
        &self.timer
    }
}

/// How long the input source may wait for a key before the next tick is
/// due: what is left of `rate` after `elapsed`, and nothing once `elapsed`
/// has reached it. Both are in the same unit of time. After that wait
/// the tick is due.
pub fn wait_before_tick(rate: u128, elapsed: u128) -> (wait: u128)
    ensures
        wait == if elapsed >= rate { 0 } else { rate - elapsed },
        wait <= rate,
        elapsed + wait >= rate,
{
    if elapsed >= rate {
        0
    } else {
        rate - elapsed
    }
}

/// Whether a tick is due: `elapsed`, the time since the last tick, has
/// reached `rate`.
pub fn tick_due(rate: u128, elapsed: u128) -> (due: bool)
    ensures
        due == (elapsed >= rate),
{
    elapsed >= rate
}

} // verus!
