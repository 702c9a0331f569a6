//! The animation state machine: a current state, and at most one scheduled
//! transition to a next state at a tick of the real-time counter.
//!
//! States 0 to 5 cycle through the idle animation; 100, 101 and 102 react to
//! button A, button B and both; 200 and up react to integers received over
//! the radio. A newer schedule replaces a pending one: there is no queue,
//! so a reaction cancels the animation step it interrupts.

use vstd::prelude::*;
use crate::leds::images::Glyph;
use crate::package::{Package, PackageData, PackageHeaderView};

verus! {

/// The state of the machine, as a value.
pub struct StateView {
    pub current: u32,
    pub next: u32,
    /// The tick at which `next` becomes current; 0 when nothing is pending.
    pub change_at: u32,
}

/// The state after scheduling `state` in `delay` ticks at tick `now`: any
/// pending transition is replaced.
pub open spec fn schedule_spec(s: StateView, state: u32, delay: u32, now: u32) -> StateView {
    StateView { current: s.current, next: state, change_at: (now + delay) as u32 }
}

/// Whether the pending transition is due at tick `now`.
pub open spec fn due(s: StateView, now: u32) -> bool {
    s.change_at > 0 && s.change_at <= now
}

/// The state after a tick at `now`: a due transition is made and no longer
/// pending.
pub open spec fn tick_spec(s: StateView, now: u32) -> StateView {
    if due(s, now) {
        StateView { current: s.next, next: s.next, change_at: 0 }
    } else {
        s
    }
}

/// The delay of a schedule that names none.
pub const DEFAULT_DELAY: u32 = 1;

/// How long a reaction stays before the idle animation resumes.
pub const REACTION_DELAY: u32 = 10;

/// What a state does when it becomes current: the glyph it shows, if any,
/// and the transition it schedules.
#[derive(Clone, Copy, Debug, PartialEq, Eq, Structural)]
pub struct Reaction {
    pub glyph: Option<Glyph>,
    pub next_state: u32,
    pub delay: u32,
}

/// The reaction table. The idle states show dot, little heart, heart,
/// little heart, dot and nothing, each for one tick; the reactions show a
/// face for ten ticks and return to state 0; any other state returns to 0
/// at the next tick.
pub open spec fn reaction_of(state: u32) -> Reaction {
    if state == 0 {
        Reaction { glyph: Some(Glyph::MidDot), next_state: 1, delay: 1 }
    } else if state == 1 {
        Reaction { glyph: Some(Glyph::LittleHeart), next_state: 2, delay: 1 }
    } else if state == 2 {
        Reaction { glyph: Some(Glyph::Heart), next_state: 3, delay: 1 }
    } else if state == 3 {
        Reaction { glyph: Some(Glyph::LittleHeart), next_state: 4, delay: 1 }
    } else if state == 4 {
        Reaction { glyph: Some(Glyph::MidDot), next_state: 5, delay: 1 }
    } else if state == 5 {
        Reaction { glyph: Some(Glyph::Clear), next_state: 0, delay: 1 }
    } else if state == 100 || state == 200 {
        Reaction { glyph: Some(Glyph::Happy), next_state: 0, delay: 10 }
    } else if state == 101 || state == 201 {
        Reaction { glyph: Some(Glyph::Sad), next_state: 0, delay: 10 }
    } else if state == 102 || state == 202 {
        Reaction { glyph: Some(Glyph::Phantom), next_state: 0, delay: 10 }
    } else {
        Reaction { glyph: None, next_state: 0, delay: 1 }
    }
}

/// The reaction of a state that has just become current.
pub fn reaction(state: u32) -> (r: Reaction)
    ensures
        r == reaction_of(state),
{
    match state {
        0 => Reaction { glyph: Some(Glyph::MidDot), next_state: 1, delay: DEFAULT_DELAY },
        1 => Reaction { glyph: Some(Glyph::LittleHeart), next_state: 2, delay: DEFAULT_DELAY },
        2 => Reaction { glyph: Some(Glyph::Heart), next_state: 3, delay: DEFAULT_DELAY },
        3 => Reaction { glyph: Some(Glyph::LittleHeart), next_state: 4, delay: DEFAULT_DELAY },
        4 => Reaction { glyph: Some(Glyph::MidDot), next_state: 5, delay: DEFAULT_DELAY },
        5 => Reaction { glyph: Some(Glyph::Clear), next_state: 0, delay: DEFAULT_DELAY },
        100 | 200 => Reaction { glyph: Some(Glyph::Happy), next_state: 0, delay: REACTION_DELAY },
        101 | 201 => Reaction { glyph: Some(Glyph::Sad), next_state: 0, delay: REACTION_DELAY },
        102 | 202 => Reaction { glyph: Some(Glyph::Phantom), next_state: 0, delay: REACTION_DELAY },
        _ => Reaction { glyph: None, next_state: 0, delay: DEFAULT_DELAY },
    }
}

/// The state that a button edge asks for, given which buttons are held:
/// 100 for A alone, 101 for B alone, 102 for both, none for neither.
pub open spec fn button_state_of(a: bool, b: bool) -> Option<u32> {
    if a && b {
        Some(102)
    } else if a {
        Some(100)
    } else if b {
        Some(101)
    } else {
        None
    }
}

pub fn button_state(a_pressed: bool, b_pressed: bool) -> (r: Option<u32>)
    ensures
        r == button_state_of(a_pressed, b_pressed),
{
    match (a_pressed, b_pressed) {
        (false, false) => None,
        (true, false) => Some(100),
        (false, true) => Some(101),
        (true, true) => Some(102),
    }
}

/// The smallest declared datagram length that a package with an integer
/// value can have.
pub const MIN_VALUE_LENGTH: u8 = 16;

/// The number of radio reactions: integers 0 up to this, exclusive, are
/// reacted to.
pub const RADIO_REACTIONS: i32 = 3;

/// The state that a decoded package asks for: 200 plus the integer that it
/// carries, where the datagram is long enough to carry one and the integer
/// is one that has a reaction; none otherwise.
pub open spec fn radio_state_of(h: PackageHeaderView, data: PackageData) -> Option<u32> {
    let value = match data {
        PackageData::Integer(v) => Some(v),
        PackageData::IntegerValue(v) => Some(v),
        _ => None,
    };
    if h.datagram.length >= MIN_VALUE_LENGTH && value is Some && 0 <= value.unwrap()
        < RADIO_REACTIONS {
        Some((200 + value.unwrap()) as u32)
    } else {
        None
    }
}

/// The state that a decoded package asks for.
pub fn radio_state(package: &Package) -> (r: Option<u32>)
    ensures
        r == radio_state_of(package.header@, package.data),
{
    if package.header.datagram_header().length() < MIN_VALUE_LENGTH {
        return None;
    }
    match package.data {
        PackageData::Integer(value) | PackageData::IntegerValue(value) => {
            if 0 <= value && value < RADIO_REACTIONS {
                Some((200 + value) as u32)
            } else {
                None
            }
        },
        _ => None,
    }
}

/// The animation state machine.
pub struct ProgramState {
    current_state: u32,
    next_state: u32,
    change_at: u32,
}

impl View for ProgramState {
    type V = StateView;

    closed spec fn view(&self) -> StateView {
        StateView { current: self.current_state, next: self.next_state, change_at: self.change_at }
    }
}

impl ProgramState {
    /// The machine at start-up: in state 0, with a transition to an unknown
    /// state due at tick 10, which sends it to the idle animation.
    pub fn new() -> (r: ProgramState)
        ensures
            r@ == (StateView { current: 0, next: u32::MAX, change_at: 10 }),
    {
        ProgramState { current_state: 0, next_state: u32::MAX, change_at: 10 }
    }

    pub fn current_state(&self) -> (r: u32)
        ensures
            r == self@.current,
    {
        self.current_state
    }

    pub fn next_state(&self) -> (r: u32)
        ensures
            r == self@.next,
    {
        self.next_state
    }

    pub fn change_at(&self) -> (r: u32)
        ensures
            r == self@.change_at,
    {
        self.change_at
    }

    /// Schedules `state` for `delay` ticks after `now`, one tick where no
    /// delay is given, replacing any pending transition.
    pub fn schedule(&mut self, state: u32, delay: Option<u32>, now: u32)
        requires
            now + delay.unwrap_or(DEFAULT_DELAY) <= u32::MAX,
        ensures
            final(self)@ == schedule_spec(old(self)@, state, delay.unwrap_or(DEFAULT_DELAY), now),
    {
        let d = match delay {
            Some(d) => d,
            None => DEFAULT_DELAY,
        };
        self.next_state = state;
        self.change_at = now + d;
    }

    /// Called at each tick of the real-time counter: makes a due transition
    /// and returns the state that became current.
    pub fn tick(&mut self, now: u32) -> (r: Option<u32>)
        ensures
            final(self)@ == tick_spec(old(self)@, now),
            r == (if due(old(self)@, now) {
                Some(old(self)@.next)
            } else {
                None
            }),
    {
        if self.change_at > 0 && self.change_at <= now {
            self.current_state = self.next_state;
            self.change_at = 0;
            Some(self.current_state)
        } else {
            None
        }
    }

    /// The tick handler: makes a due transition, schedules what the new
    /// state's reaction asks for, and returns the glyph to show.
    pub fn on_tick(&mut self, now: u32) -> (r: Option<Glyph>)
        requires
            now + REACTION_DELAY <= u32::MAX,
        ensures
            !due(old(self)@, now) ==> final(self)@ == old(self)@ && r is None,
            due(old(self)@, now) ==> {
                let s = old(self)@.next;
                let re = reaction_of(s);
                &&& final(self)@ == schedule_spec(tick_spec(old(self)@, now), re.next_state, re.delay, now)
                &&& r == re.glyph
            },
    {
        match self.tick(now) {
            Some(s) => {
                let re = reaction(s);
                self.schedule(re.next_state, Some(re.delay), now);
                re.glyph
            },
            None => None,
        }
    }

    /// The button handler: schedules the reaction to the buttons held, at
    /// the next tick.
    pub fn on_buttons(&mut self, a_pressed: bool, b_pressed: bool, now: u32)
        requires
            now + DEFAULT_DELAY <= u32::MAX,
        ensures
            final(self)@ == match button_state_of(a_pressed, b_pressed) {
                Some(s) => schedule_spec(old(self)@, s, DEFAULT_DELAY, now),
                None => old(self)@,
            },
    {
        if let Some(s) = button_state(a_pressed, b_pressed) {
            self.schedule(s, None, now);
        }
    }

    /// The radio handler: schedules the reaction that a received package
    /// asks for, at the next tick.
    pub fn on_package(&mut self, package: &Package, now: u32)
        requires
            now + DEFAULT_DELAY <= u32::MAX,
        ensures
            final(self)@ == match radio_state_of(package.header@, package.data) {
                Some(s) => schedule_spec(old(self)@, s, DEFAULT_DELAY, now),
                None => old(self)@,
            },
    {
        if let Some(s) = radio_state(package) {
            self.schedule(s, None, now);
        }
    }
}

/// The newest schedule wins: scheduling `a` and then `b` before either is
/// due leaves the machine as if only `b` had been scheduled, and it is `b`
/// that becomes current at its tick, never `a`.
pub proof fn lemma_last_schedule_wins(
    s: StateView,
    a: u32,
    d1: u32,
    now1: u32,
    b: u32,
    d2: u32,
    now2: u32,
    t: u32,
)
    requires
        now1 + d1 <= u32::MAX,
        now2 + d2 <= u32::MAX,
        now2 + d2 > 0,
    ensures
        ({
            let s2 = schedule_spec(schedule_spec(s, a, d1, now1), b, d2, now2);
            &&& s2 == schedule_spec(s, b, d2, now2)
            &&& due(s2, t) <==> t >= now2 + d2
            &&& due(s2, t) ==> tick_spec(s2, t).current == b
        }),
{
}

} // verus!
