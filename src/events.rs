use vstd::prelude::*;

verus! {

/// The keys the workflow reacts to; every other key reads as `Other`.
#[derive(Debug, Clone, Copy, PartialEq, Eq, Structural)]
pub enum KeyCode {
    Up,
    Down,
    Left,
    Right,
    Enter,
    Esc,
    Char(char),
    Other,
}

/// Modifier bit of the shift key.
pub const SHIFT: u8 = 0b0000_0001;

/// Modifier bit of the control key.
pub const CONTROL: u8 = 0b0000_0010;

/// Modifier bit of the alt key.
pub const ALT: u8 = 0b0000_0100;

/// One key press from the terminal: the key and the set of modifier bits
/// held with it.
#[derive(Debug, Clone, Copy, PartialEq, Eq, Structural)]
pub struct KeyInput {
    pub code: KeyCode,
    pub modifiers: u8,
}

/// What the event multiplexer hands the driver loop.
#[derive(Debug, Clone, PartialEq, Eq)]
pub enum AppEvent {
    /// A key press that is not an abort chord.
    Input(KeyInput),
    /// The process was asked to terminate.
    Signal,
    /// The multiplexer failed; it emits nothing after this.
    Error(String),
    /// The periodic timer fired.
    Tick,
}

/// Control-C and control-D, with no other modifier held, ask to terminate.
pub open spec fn is_abort_chord(key: KeyInput) -> bool {
    &&& key.modifiers == CONTROL
    &&& (key.code == KeyCode::Char('c') || key.code == KeyCode::Char('d'))
}

/// Turns a key press into an event: an abort chord becomes a termination
/// request, every other key stays input.
pub fn map_event(key: KeyInput) -> (e: AppEvent)
    ensures
        e == (if is_abort_chord(key) {
            AppEvent::Signal
        } else {
            AppEvent::Input(key)
        }),
{
    let chord = match key.code {
        KeyCode::Char(c) => c == 'c' || c == 'd',
        _ => false,
    };
    if chord && key.modifiers == CONTROL {
        AppEvent::Signal
    } else {
        AppEvent::Input(key)
    }
}

/// Tick scheduling with drift correction.
///
/// `since_last_tick` counts the milliseconds spent on events other than
/// ticks since the last tick. The wait before the next tick is the period
/// minus that time, so one tick arrives about every period; when more than a
/// period has gone by, whole periods are dropped from the count first, so a
/// slow step yields one tick soon after it instead of a burst of them.
pub struct TickClock {
    pub period: u64,
    pub since_last_tick: u64,
}

impl TickClock {
    pub open spec fn wf(&self) -> bool {
        self.period > 0
    }

    pub fn new(period: u64) -> (r: TickClock)
        requires
            period > 0,
        ensures
            r.period == period,
            r.since_last_tick == 0,
            r.wf(),
    {
        TickClock { period, since_last_tick: 0 }
    }

    /// Drops whole periods from the count and returns how long to wait for
    /// the next tick.
    pub fn next_tick_in(&mut self) -> (wait: u64)
        requires
            old(self).wf(),
        ensures
            final(self).period == old(self).period,
            final(self).since_last_tick <= final(self).period,
            old(self).since_last_tick <= old(self).period ==> final(self).since_last_tick
                == old(self).since_last_tick,
            old(self).since_last_tick > old(self).period ==> {
                &&& final(self).since_last_tick >= 1
                &&& (old(self).since_last_tick - final(self).since_last_tick) % (old(
                    self,
                ).period as int) == 0
            },
            wait == final(self).period - final(self).since_last_tick,
    {
        let p = self.period;
        let s = self.since_last_tick;
        if s > p {
            let folded = (s - 1) % p + 1;
            assert((s - folded) % (p as int) == 0) by (nonlinear_arith)
                requires
                    p > 0,
                    s > p,
                    folded == (s - 1) % (p as int) + 1,
            {
                assert(s - 1 == p * ((s - 1) / (p as int)) + (s - 1) % (p as int));
                assert(s - folded == p * ((s - 1) / (p as int)));
            }
            self.since_last_tick = folded;
        }
        self.period - self.since_last_tick
    }

    /// Accounts for one emitted event: a tick starts the count again, any
    /// other event adds the `elapsed` milliseconds spent waiting for it.
    pub fn record(&mut self, was_tick: bool, elapsed: u64)
        ensures
            final(self).period == old(self).period,
            final(self).since_last_tick == (if was_tick {
                0
            } else {
                old(self).since_last_tick.saturating_add(elapsed)
            }),
    {
        if was_tick {
            self.since_last_tick = 0;
        } else {
            self.since_last_tick = self.since_last_tick.saturating_add(elapsed);
        }
    }
}

} // verus!
