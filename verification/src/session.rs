//! The session state machine: phases, target adjustment, the debounce
//! guard on recorded attempts, and completion.
//!
//! Timestamps are integer milliseconds from a monotonic clock; the caller
//! reads the clock and passes the current reading in, so every transition
//! is a pure, verified function of the prior state and that reading.

use vstd::prelude::*;

verus! {

/// Fewest solves a session may target; a single solve has no spread.
pub const MIN_TARGET: u8 = 2;

/// The reference distance: the solve count of a standard "marathon",
/// also the initial target of a fresh session.
pub const MARATHON_SOLVES: u8 = 42;

/// Largest representable target.
pub const MAX_TARGET: u8 = 255;

/// An attempt recorded less than this many milliseconds after the current
/// attempt began is treated as accidental input and discarded.
pub const DEBOUNCE_MILLIS: u64 = 500;

/// Phase of a session.
#[derive(Debug, Clone, Copy, PartialEq, Eq, Structural)]
pub enum State {
    /// Choosing the target count; nothing is being timed.
    Begin,
    /// Attempts are being timed and recorded.
    Running,
    /// The target was reached; the total time is frozen.
    Finished,
}

/// One completed attempt: its 1-based rank in the session and how long
/// it took, in milliseconds.
#[derive(Debug, Clone, Copy, PartialEq, Eq, Structural)]
pub struct Solve {
    pub number: u8,
    pub time_millis: u64,
}

/// An abstract key press, as the state machine distinguishes them.
/// Every other key is `Other`.
#[derive(Debug, Clone, Copy, PartialEq, Eq, Structural)]
pub enum Key {
    Q,
    Left,
    Right,
    Space,
    R,
    Other,
}

/// The session: current phase, target, recorded solves, and the clock
/// readings the in-progress measurements are counted from.
#[derive(Debug)]
pub struct App {
    pub state: State,
    pub target: u8,
    pub counter: u8,
    pub total_begin: u64,
    pub total_time: u64,
    pub current_begin: u64,
    pub exit: bool,
    pub solves: Vec<Solve>,
}

impl App {
    /// Well-formedness: the counter mirrors the solve list, solves are
    /// numbered 1.. in order, the target is in range, and each phase
    /// keeps its own books straight.
    pub open spec fn wf(self) -> bool {
        &&& MIN_TARGET <= self.target
        &&& self.counter <= self.target
        &&& self.solves@.len() == self.counter as int
        &&& (forall|i: int|
            0 <= i < self.solves@.len() ==> (#[trigger] self.solves@[i]).number as int == i + 1)
        &&& (self.state is Begin ==> self.counter == 0)
        &&& (self.state is Running ==> self.counter < self.target
            && self.total_begin <= self.current_begin)
        &&& (self.state is Finished ==> self.counter == self.target)
    }
}

/// The target after one adjustment: raised by one saturating at
/// `MAX_TARGET` when `increase`, else lowered by one stopping at
/// `MIN_TARGET`.
pub open spec fn adjusted_target(t: u8, increase: bool) -> u8 {
    if increase {
        if t < MAX_TARGET {
            (t + 1) as u8
        } else {
            t
        }
    } else {
        if t > MIN_TARGET {
            (t - 1) as u8
        } else {
            t
        }
    }
}

/// The target after a whole sequence of adjustments (`true` raises,
/// `false` lowers), applied left to right.
pub open spec fn target_after(t: u8, ops: Seq<bool>) -> u8
    decreases ops.len(),
{
    if ops.len() == 0 {
        t
    } else {
        adjusted_target(target_after(t, ops.drop_last()), ops.last())
    }
}

/// However the target is adjusted in `Begin`, and however often, it
/// stays within `[MIN_TARGET, MAX_TARGET]`.
pub proof fn lemma_target_stays_in_range(t: u8, ops: Seq<bool>)
    requires
        MIN_TARGET <= t,
    ensures
        MIN_TARGET <= target_after(t, ops) <= MAX_TARGET,
    decreases ops.len(),
{
    if ops.len() > 0 {
        lemma_target_stays_in_range(t, ops.drop_last());
    }
}

impl Default for App {
    /// A fresh session: in `Begin`, targeting the marathon distance,
    /// with no solves and all clocks at zero.
    fn default() -> (app: App)
        ensures
            app.wf(),
            app.state is Begin,
            app.target == MARATHON_SOLVES,
            app.counter == 0,
            app.solves@.len() == 0,
            app.total_begin == 0,
            app.total_time == 0,
            app.current_begin == 0,
            !app.exit,
    {
        App {
            state: State::Begin,
            target: MARATHON_SOLVES,
            counter: 0,
            total_begin: 0,
            total_time: 0,
            current_begin: 0,
            exit: false,
            solves: Vec::new(),
        }
    }
}

impl App {
    /// Raise the target by one, saturating at `MAX_TARGET`.
    /// The target is adjustable only in `Begin`.
    pub fn increment_target(&mut self)
        requires
            old(self).wf(),
            old(self).state is Begin,
        ensures
            final(self).wf(),
            final(self).target == adjusted_target(old(self).target, true),
            final(self).target == if old(self).target < MAX_TARGET {
                old(self).target + 1
            } else {
                old(self).target as int
            },
            MIN_TARGET <= final(self).target <= MAX_TARGET,
            final(self).state == old(self).state,
            final(self).counter == old(self).counter,
            final(self).solves@ == old(self).solves@,
            final(self).total_begin == old(self).total_begin,
            final(self).total_time == old(self).total_time,
            final(self).current_begin == old(self).current_begin,
            final(self).exit == old(self).exit,
    {
        if self.target < MAX_TARGET {
            self.target = self.target + 1;
        }
    }

    /// Lower the target by one, stopping at `MIN_TARGET`.
    /// The target is adjustable only in `Begin`.
    pub fn decrement_target(&mut self)
        requires
            old(self).wf(),
            old(self).state is Begin,
        ensures
            final(self).wf(),
            final(self).target == adjusted_target(old(self).target, false),
            final(self).target == if old(self).target > MIN_TARGET {
                old(self).target - 1
            } else {
                old(self).target as int
            },
            MIN_TARGET <= final(self).target <= MAX_TARGET,
            final(self).state == old(self).state,
            final(self).counter == old(self).counter,
            final(self).solves@ == old(self).solves@,
            final(self).total_begin == old(self).total_begin,
            final(self).total_time == old(self).total_time,
            final(self).current_begin == old(self).current_begin,
            final(self).exit == old(self).exit,
    {
        if self.target > MIN_TARGET {
            self.target = self.target - 1;
        }
    }

    /// Leave `Begin` for `Running`: both clocks start at `now_millis`,
    /// and the solve list is empty no matter what came before.
    /// The caller owes an audio cue alongside this transition.
    pub fn start_timing(&mut self, now_millis: u64)
        requires
            old(self).wf(),
            old(self).state is Begin,
        ensures
            final(self).wf(),
            final(self).state is Running,
            final(self).counter == 0,
            final(self).solves@.len() == 0,
            final(self).total_begin == now_millis,
            final(self).current_begin == now_millis,
            final(self).target == old(self).target,
            final(self).total_time == old(self).total_time,
            final(self).exit == old(self).exit,
    {
        self.state = State::Running;
        self.counter = 0;
        self.solves = Vec::new();
        self.total_begin = now_millis;
        self.current_begin = now_millis;
    }

    /// Record one attempt at clock reading `now_millis`.
    ///
    /// If the attempt ran shorter than `DEBOUNCE_MILLIS`, the event is
    /// discarded and nothing changes (in particular the attempt's start
    /// point is kept, so a later press still measures from it).
    /// Otherwise the solve is appended with the next sequence number, the
    /// next attempt starts at `now_millis`, and when the target is reached
    /// the session moves to `Finished` with its total time frozen.
    pub fn solve_done(&mut self, now_millis: u64)
        requires
            old(self).wf(),
            old(self).state is Running,
            now_millis >= old(self).current_begin,
        ensures
            final(self).wf(),
            final(self).target == old(self).target,
            final(self).total_begin == old(self).total_begin,
            final(self).exit == old(self).exit,
            now_millis - old(self).current_begin < DEBOUNCE_MILLIS ==> {
                &&& final(self).state == old(self).state
                &&& final(self).counter == old(self).counter
                &&& final(self).solves@ == old(self).solves@
                &&& final(self).total_time == old(self).total_time
                &&& final(self).current_begin == old(self).current_begin
            },
            now_millis - old(self).current_begin >= DEBOUNCE_MILLIS ==> {
                &&& final(self).counter == old(self).counter + 1
                &&& final(self).solves@ == old(self).solves@.push(
                    Solve {
                        number: (old(self).counter + 1) as u8,
                        time_millis: (now_millis - old(self).current_begin) as u64,
                    },
                )
                &&& final(self).current_begin == now_millis
                &&& (if old(self).counter + 1 == old(self).target {
                    final(self).state is Finished && final(self).total_time == now_millis
                        - old(self).total_begin
                } else {
                    final(self).state is Running && final(self).total_time == old(
                        self,
                    ).total_time
                })
            },
    {
        let duration = now_millis - self.current_begin;
        if duration < DEBOUNCE_MILLIS {
            return;
        }
        self.counter = self.counter + 1;
        self.current_begin = now_millis;
        self.solves.push(Solve { number: self.counter, time_millis: duration });
        if self.counter == self.target {
            self.total_time = now_millis - self.total_begin;
            self.state = State::Finished;
        }
    }

    /// Return from `Finished` to `Begin`: the counter and the solve list
    /// are cleared, while the target and the frozen total are kept.
    pub fn reset(&mut self)
        requires
            old(self).wf(),
            old(self).state is Finished,
        ensures
            final(self).wf(),
            final(self).state is Begin,
            final(self).counter == 0,
            final(self).solves@.len() == 0,
            final(self).target == old(self).target,
            final(self).total_begin == old(self).total_begin,
            final(self).total_time == old(self).total_time,
            final(self).current_begin == old(self).current_begin,
            final(self).exit == old(self).exit,
    {
        self.state = State::Begin;
        self.counter = 0;
        self.solves = Vec::new();
    }

    /// Mark the session as done with; the driving loop observes the flag
    /// and stops feeding events.
    pub fn exit(&mut self)
        ensures
            final(self).exit,
            final(self).state == old(self).state,
            final(self).target == old(self).target,
            final(self).counter == old(self).counter,
            final(self).solves@ == old(self).solves@,
            final(self).total_begin == old(self).total_begin,
            final(self).total_time == old(self).total_time,
            final(self).current_begin == old(self).current_begin,
            old(self).wf() ==> final(self).wf(),
    {
        self.exit = true;
    }
}

/// Everything but the exit flag is as it was.
pub open spec fn core_unchanged(pre: App, post: App) -> bool {
    &&& post.state == pre.state
    &&& post.target == pre.target
    &&& post.counter == pre.counter
    &&& post.solves@ == pre.solves@
    &&& post.total_begin == pre.total_begin
    &&& post.total_time == pre.total_time
    &&& post.current_begin == pre.current_begin
}

/// The event was not meaningful in this phase: nothing at all changed.
pub open spec fn step_ignore(pre: App, post: App) -> bool {
    core_unchanged(pre, post) && post.exit == pre.exit
}

/// Quit: only the exit flag is raised.
pub open spec fn step_exit(pre: App, post: App) -> bool {
    core_unchanged(pre, post) && post.exit
}

/// One target adjustment in `Begin`; nothing else moves.
pub open spec fn step_adjust(pre: App, post: App, increase: bool) -> bool {
    &&& post.target == adjusted_target(pre.target, increase)
    &&& post.state == pre.state
    &&& post.counter == pre.counter
    &&& post.solves@ == pre.solves@
    &&& post.total_begin == pre.total_begin
    &&& post.total_time == pre.total_time
    &&& post.current_begin == pre.current_begin
    &&& post.exit == pre.exit
}

/// `Begin` to `Running`: counter and solves cleared, both clocks set to
/// the current reading, target kept.
pub open spec fn step_begin(pre: App, post: App, now_millis: u64) -> bool {
    &&& post.state is Running
    &&& post.counter == 0
    &&& post.solves@.len() == 0
    &&& post.total_begin == now_millis
    &&& post.current_begin == now_millis
    &&& post.target == pre.target
    &&& post.total_time == pre.total_time
    &&& post.exit == pre.exit
}

/// One attempt recorded (or debounced away) in `Running`.
pub open spec fn step_record(pre: App, post: App, now_millis: u64) -> bool {
    &&& post.target == pre.target
    &&& post.total_begin == pre.total_begin
    &&& post.exit == pre.exit
    &&& if now_millis - pre.current_begin < DEBOUNCE_MILLIS {
        &&& post.state == pre.state
        &&& post.counter == pre.counter
        &&& post.solves@ == pre.solves@
        &&& post.total_time == pre.total_time
        &&& post.current_begin == pre.current_begin
    } else {
        &&& post.counter == pre.counter + 1
        &&& post.solves@ == pre.solves@.push(
            Solve {
                number: (pre.counter + 1) as u8,
                time_millis: (now_millis - pre.current_begin) as u64,
            },
        )
        &&& post.current_begin == now_millis
        &&& (if pre.counter + 1 == pre.target {
            post.state is Finished && post.total_time == now_millis - pre.total_begin
        } else {
            post.state is Running && post.total_time == pre.total_time
        })
    }
}

/// `Finished` back to `Begin`: counter and solves cleared, the target
/// and the frozen total kept.
pub open spec fn step_reset(pre: App, post: App) -> bool {
    &&& post.state is Begin
    &&& post.counter == 0
    &&& post.solves@.len() == 0
    &&& post.target == pre.target
    &&& post.total_begin == pre.total_begin
    &&& post.total_time == pre.total_time
    &&& post.current_begin == pre.current_begin
    &&& post.exit == pre.exit
}

/// The whole state machine: what one key press does in each phase.
pub open spec fn step(pre: App, post: App, key: Key, now_millis: u64) -> bool {
    match pre.state {
        State::Begin => match key {
            Key::Q => step_exit(pre, post),
            Key::Right => step_adjust(pre, post, true),
            Key::Left => step_adjust(pre, post, false),
            Key::Space => step_begin(pre, post, now_millis),
            _ => step_ignore(pre, post),
        },
        State::Running => match key {
            Key::Q => step_exit(pre, post),
            _ => step_record(pre, post, now_millis),
        },
        State::Finished => match key {
            Key::Q => step_exit(pre, post),
            Key::R => step_reset(pre, post),
            _ => step_ignore(pre, post),
        },
    }
}

/// Once a session is complete its total time is frozen: no later key
/// press, at any later clock reading, changes it — only a fresh run to
/// completion writes it again.
pub proof fn lemma_total_time_frozen_once_finished(pre: App, post: App, key: Key, now_millis: u64)
    requires
        pre.state is Finished,
        step(pre, post, key, now_millis),
    ensures
        post.total_time == pre.total_time,
{
}

/// When a key press owes an audio cue: on leaving `Begin` for `Running`,
/// and on every attempt in `Running` (even one the debounce guard later
/// discards).
pub open spec fn cue_owed(pre: App, key: Key) -> bool {
    ||| pre.state is Begin && key is Space
    ||| pre.state is Running && !(key is Q)
}

impl App {
    /// Feed one key press into the state machine at clock reading
    /// `now_millis`. Returns whether the caller owes an audio cue;
    /// playing it (or failing to) is the caller's affair and never
    /// reaches back into the session.
    pub fn handle_key_event(&mut self, key: Key, now_millis: u64) -> (beep: bool)
        requires
            old(self).wf(),
            old(self).state is Running ==> now_millis >= old(self).current_begin,
        ensures
            final(self).wf(),
            step(*old(self), *final(self), key, now_millis),
            beep == cue_owed(*old(self), key),
    {
        match self.state {
            State::Begin => match key {
                Key::Q => {
                    self.exit();
                    false
                },
                Key::Right => {
                    self.increment_target();
                    false
                },
                Key::Left => {
                    self.decrement_target();
                    false
                },
                Key::Space => {
                    self.start_timing(now_millis);
                    true
                },
                _ => false,
            },
            State::Running => match key {
                Key::Q => {
                    self.exit();
                    false
                },
                _ => {
                    self.solve_done(now_millis);
                    true
                },
            },
            State::Finished => match key {
                Key::Q => {
                    self.exit();
                    false
                },
                Key::R => {
                    self.reset();
                    false
                },
                _ => false,
            },
        }
    }
}

} // verus!
