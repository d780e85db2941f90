//! The monitor loop as a state machine. The surrounding program builds and
//! renders one snapshot per tick, waits up to the tick interval for a key,
//! and reports what happened; the machine says what to do next.

use vstd::prelude::*;

verus! {

/// The key that ends the loop.
pub const QUIT_KEY: char = 'q';

/// How the snapshots are presented.
#[derive(Clone, Copy, Debug, PartialEq, Eq, Structural)]
pub enum Presentation {
    /// Lines appended to a stream.
    Transcript,
    /// Full screen, in the alternate buffer.
    Dashboard,
}

/// Whether the loop still runs.
#[derive(Clone, Copy, Debug, PartialEq, Eq, Structural)]
pub enum Phase {
    Running,
    Stopped,
}

/// What ended a tick.
#[derive(Clone, Copy, Debug, PartialEq, Eq, Structural)]
pub enum TickEvent {
    /// The tick interval passed without input.
    Elapsed,
    /// A key was pressed within the interval.
    Key(char),
    /// Some other input arrived within the interval.
    OtherInput,
    /// The snapshot could not be built or the terminal failed.
    Fatal,
}

/// What the surrounding program does next.
#[derive(Clone, Copy, Debug, PartialEq, Eq, Structural)]
pub enum Directive {
    /// Begin the next tick.
    NextTick,
    /// Leave the loop: restore the screen if asked, then exit with the code.
    Shutdown { restore_screen: bool, exit_code: u8 },
    /// The loop has ended already; there is nothing more to do.
    Nothing,
}

/// The state of the loop.
#[derive(Clone, Copy, Debug, PartialEq, Eq, Structural)]
pub struct MonitorLoop {
    pub presentation: Presentation,
    pub phase: Phase,
    /// The number of the tick that is under way, or of the last one when the
    /// loop has stopped. The first tick is tick one.
    pub tick: u64,
    /// Which of the two banner faces the tick under way shows.
    pub banner_awake: bool,
}

/// Whether an event ends the loop: the quit key or a fatal error.
pub open spec fn stops(event: TickEvent) -> bool {
    event == TickEvent::Key('q') || event == TickEvent::Fatal
}

/// The exit code that an event which ends the loop leads to: zero for the
/// quit key, one for a fatal error.
pub open spec fn exit_code_of(event: TickEvent) -> u8 {
    if event == TickEvent::Fatal {
        1
    } else {
        0
    }
}

/// The state in which the first tick begins.
pub open spec fn initial(presentation: Presentation) -> MonitorLoop {
    MonitorLoop { presentation, phase: Phase::Running, tick: 1, banner_awake: false }
}

/// The state after an event.
pub open spec fn next_state(state: MonitorLoop, event: TickEvent) -> MonitorLoop {
    if state.phase == Phase::Stopped {
        state
    } else if stops(event) {
        MonitorLoop { phase: Phase::Stopped, ..state }
    } else {
        MonitorLoop {
            tick: if state.tick < u64::MAX {
                (state.tick + 1) as u64
            } else {
                state.tick
            },
            banner_awake: !state.banner_awake,
            ..state
        }
    }
}

/// What an event asks of the surrounding program.
pub open spec fn directive_of(state: MonitorLoop, event: TickEvent) -> Directive {
    if state.phase == Phase::Stopped {
        Directive::Nothing
    } else if stops(event) {
        Directive::Shutdown {
            restore_screen: state.presentation == Presentation::Dashboard,
            exit_code: exit_code_of(event),
        }
    } else {
        Directive::NextTick
    }
}

/// The state after a sequence of events, taken in order.
pub open spec fn run(state: MonitorLoop, events: Seq<TickEvent>) -> MonitorLoop
    decreases events.len(),
{
    if events.len() == 0 {
        state
    } else {
        next_state(run(state, events.drop_last()), events.last())
    }
}

/// The number of shutdowns that a sequence of events leads to.
pub open spec fn shutdowns(state: MonitorLoop, events: Seq<TickEvent>) -> nat
    decreases events.len(),
{
    if events.len() == 0 {
        0
    } else {
        shutdowns(state, events.drop_last()) + if directive_of(
            run(state, events.drop_last()),
            events.last(),
        ) is Shutdown {
            1nat
        } else {
            0nat
        }
    }
}

impl MonitorLoop {
    /// The loop before its first tick.
    pub fn start(presentation: Presentation) -> (state: MonitorLoop)
        ensures
            state == initial(presentation),
    {
        MonitorLoop { presentation, phase: Phase::Running, tick: 1, banner_awake: false }
    }

    /// Whether the screen has to be prepared before the first tick: only the
    /// dashboard takes the screen over.
    pub fn takes_screen(&self) -> (takes: bool)
        ensures
            takes == (self.presentation == Presentation::Dashboard),
    {
        match self.presentation {
            Presentation::Dashboard => true,
            Presentation::Transcript => false,
        }
    }

    /// Whether the loop still runs.
    pub fn is_running(&self) -> (running: bool)
        ensures
            running == (self.phase == Phase::Running),
    {
        match self.phase {
            Phase::Running => true,
            Phase::Stopped => false,
        }
    }

    /// Takes the event that ended a tick and says what comes next.
    ///
    /// While the loop runs, the quit key and a fatal error stop it and ask
    /// for the shutdown; anything else begins the next tick with the other
    /// banner face. Once the loop has stopped nothing changes any more.
    pub fn step(self, event: TickEvent) -> (r: (MonitorLoop, Directive))
        ensures
            r.0 == next_state(self, event),
            r.1 == directive_of(self, event),
    {
        match self.phase {
            Phase::Stopped => (self, Directive::Nothing),
            Phase::Running => {
                let fatal = match event {
                    TickEvent::Fatal => true,
                    _ => false,
                };
                let quit = match event {
                    TickEvent::Key(key) => key == QUIT_KEY,
                    _ => false,
                };
                if fatal || quit {
                    let restore_screen = self.takes_screen();
                    let exit_code: u8 = if fatal {
                        1
                    } else {
                        0
                    };
                    (
                        MonitorLoop {
                            presentation: self.presentation,
                            phase: Phase::Stopped,
                            tick: self.tick,
                            banner_awake: self.banner_awake,
                        },
                        Directive::Shutdown { restore_screen, exit_code },
                    )
                } else {
                    let tick: u64 = if self.tick < u64::MAX {
                        self.tick + 1
                    } else {
                        self.tick
                    };
                    (
                        MonitorLoop {
                            presentation: self.presentation,
                            phase: Phase::Running,
                            tick,
                            banner_awake: !self.banner_awake,
                        },
                        Directive::NextTick,
                    )
                }
            },
        }
    }
}

/// A stopped loop stays as it is, whatever comes.
pub proof fn stopped_is_final(state: MonitorLoop, events: Seq<TickEvent>)
    requires
        state.phase == Phase::Stopped,
    ensures
        run(state, events) == state,
        shutdowns(state, events) == 0,
    decreases events.len(),
{
    if events.len() > 0 {
        stopped_is_final(state, events.drop_last());
    }
}

/// Running the events `first` and then `second` is running `second` from
/// where `first` led, and the shutdowns add up.
pub proof fn run_in_two_parts(state: MonitorLoop, first: Seq<TickEvent>, second: Seq<TickEvent>)
    ensures
        run(state, first + second) == run(run(state, first), second),
        shutdowns(state, first + second) == shutdowns(state, first) + shutdowns(
            run(state, first),
            second,
        ),
    decreases second.len(),
{
    if second.len() == 0 {
        assert(first + second =~= first);
    } else {
        assert((first + second).drop_last() =~= first + second.drop_last());
        assert((first + second).last() == second.last());
        run_in_two_parts(state, first, second.drop_last());
    }
}

/// While no event ends the loop it keeps running, asks for no shutdown, and
/// counts one tick for each event, as far as the counter reaches.
pub proof fn runs_until_stopped(state: MonitorLoop, events: Seq<TickEvent>)
    requires
        state.phase == Phase::Running,
        forall|i: int| 0 <= i < events.len() ==> !stops(#[trigger] events[i]),
    ensures
        run(state, events).phase == Phase::Running,
        run(state, events).presentation == state.presentation,
        shutdowns(state, events) == 0,
        run(state, events).tick == if state.tick + events.len() <= u64::MAX {
            state.tick + events.len()
        } else {
            u64::MAX as int
        },
    decreases events.len(),
{
    if events.len() > 0 {
        runs_until_stopped(state, events.drop_last());
    }
}

/// The shutdown runs exactly once, however the loop ends: of a sequence of
/// events in which the one at `at` is the first that ends the loop, that
/// event, and no other, asks for the shutdown. It restores the screen
/// exactly in dashboard mode and exits with zero for the quit key and with
/// one for a fatal error.
pub proof fn shutdown_runs_once(state: MonitorLoop, events: Seq<TickEvent>, at: int)
    requires
        state.phase == Phase::Running,
        0 <= at < events.len(),
        stops(events[at]),
        forall|i: int| 0 <= i < at ==> !stops(#[trigger] events[i]),
    ensures
        shutdowns(state, events) == 1,
        directive_of(run(state, events.take(at)), events[at]) == (Directive::Shutdown {
            restore_screen: state.presentation == Presentation::Dashboard,
            exit_code: exit_code_of(events[at]),
        }),
        run(state, events).phase == Phase::Stopped,
{
    let before = events.take(at);
    let upto = events.take(at + 1);
    let after = events.skip(at + 1);
    runs_until_stopped(state, before);
    assert(upto.drop_last() =~= before);
    assert(upto.last() == events[at]);
    assert(events =~= upto + after);
    run_in_two_parts(state, upto, after);
    stopped_is_final(run(state, upto), after);
}

/// The quit key at tick `n` ends the loop before another tick begins: the
/// tick counter stays at `n` for good, and no later event begins a tick.
pub proof fn quit_ends_before_next_tick(state: MonitorLoop, later: Seq<TickEvent>, event: TickEvent)
    requires
        state.phase == Phase::Running,
    ensures
        run(next_state(state, TickEvent::Key('q')), later).tick == state.tick,
        run(next_state(state, TickEvent::Key('q')), later).phase == Phase::Stopped,
        directive_of(run(next_state(state, TickEvent::Key('q')), later), event) == Directive::Nothing,
{
    stopped_is_final(next_state(state, TickEvent::Key('q')), later);
}

} // verus!
