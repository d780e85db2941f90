use llmtrain_monitor::monitor::{
    Directive, MonitorLoop, Phase, Presentation, TickEvent, QUIT_KEY,
};

#[test]
fn loop_starts_running_at_tick_one() {
    let state = MonitorLoop::start(Presentation::Dashboard);
    assert_eq!(state.phase, Phase::Running);
    assert_eq!(state.tick, 1);
    assert!(!state.banner_awake);
    assert!(state.is_running());
    assert!(state.takes_screen());
    assert!(!MonitorLoop::start(Presentation::Transcript).takes_screen());
}

#[test]
fn timeout_and_other_keys_begin_the_next_tick() {
    let state = MonitorLoop::start(Presentation::Dashboard);
    for event in [TickEvent::Elapsed, TickEvent::Key('x'), TickEvent::Key('Q'), TickEvent::OtherInput]
    {
        let (next, directive) = state.step(event);
        assert_eq!(directive, Directive::NextTick);
        assert_eq!(next.phase, Phase::Running);
        assert_eq!(next.tick, 2);
        assert!(next.banner_awake);
        assert_eq!(next.presentation, Presentation::Dashboard);
    }
}

#[test]
fn banner_face_alternates_each_tick() {
    let mut state = MonitorLoop::start(Presentation::Dashboard);
    let mut faces = vec![state.banner_awake];
    for _ in 0..4 {
        state = state.step(TickEvent::Elapsed).0;
        faces.push(state.banner_awake);
    }
    assert_eq!(faces, vec![false, true, false, true, false]);
    assert_eq!(state.tick, 5);
}

#[test]
fn quit_key_stops_with_exit_code_zero() {
    assert_eq!(QUIT_KEY, 'q');
    let state = MonitorLoop::start(Presentation::Dashboard);
    let (next, directive) = state.step(TickEvent::Key('q'));
    assert_eq!(directive, Directive::Shutdown { restore_screen: true, exit_code: 0 });
    assert_eq!(next.phase, Phase::Stopped);
    assert!(!next.is_running());
}

#[test]
fn fatal_error_stops_with_exit_code_one() {
    let state = MonitorLoop::start(Presentation::Dashboard);
    let (next, directive) = state.step(TickEvent::Fatal);
    assert_eq!(directive, Directive::Shutdown { restore_screen: true, exit_code: 1 });
    assert_eq!(next.phase, Phase::Stopped);
}

#[test]
fn transcript_has_no_screen_to_restore() {
    let state = MonitorLoop::start(Presentation::Transcript);
    let (_, directive) = state.step(TickEvent::Key('q'));
    assert_eq!(directive, Directive::Shutdown { restore_screen: false, exit_code: 0 });
    let (_, directive) = state.step(TickEvent::Fatal);
    assert_eq!(directive, Directive::Shutdown { restore_screen: false, exit_code: 1 });
}

#[test]
fn quit_at_tick_n_begins_no_further_tick() {
    let mut state = MonitorLoop::start(Presentation::Dashboard);
    for _ in 0..6 {
        state = state.step(TickEvent::Elapsed).0;
    }
    assert_eq!(state.tick, 7);
    let (stopped, _) = state.step(TickEvent::Key('q'));
    assert_eq!(stopped.tick, 7);
    let mut later = stopped;
    for event in [TickEvent::Elapsed, TickEvent::Key('q'), TickEvent::Fatal, TickEvent::OtherInput]
    {
        let (next, directive) = later.step(event);
        assert_eq!(directive, Directive::Nothing);
        assert_eq!(next, stopped);
        later = next;
    }
}

fn count_shutdowns(events: &[TickEvent]) -> usize {
    let mut state = MonitorLoop::start(Presentation::Dashboard);
    let mut count = 0;
    for event in events {
        let (next, directive) = state.step(*event);
        if matches!(directive, Directive::Shutdown { .. }) {
            count += 1;
        }
        state = next;
    }
    count
}

#[test]
fn shutdown_runs_exactly_once() {
    let quit = [TickEvent::Elapsed, TickEvent::Key('q'), TickEvent::Elapsed, TickEvent::Fatal];
    assert_eq!(count_shutdowns(&quit), 1);
    let fatal = [TickEvent::Elapsed, TickEvent::Fatal, TickEvent::Key('q'), TickEvent::Key('q')];
    assert_eq!(count_shutdowns(&fatal), 1);
    let never = [TickEvent::Elapsed, TickEvent::OtherInput, TickEvent::Key('a')];
    assert_eq!(count_shutdowns(&never), 0);
}

#[test]
fn tick_counter_stays_at_its_limit() {
    let state = MonitorLoop {
        presentation: Presentation::Transcript,
        phase: Phase::Running,
        tick: u64::MAX,
        banner_awake: true,
    };
    let (next, directive) = state.step(TickEvent::Elapsed);
    assert_eq!(directive, Directive::NextTick);
    assert_eq!(next.tick, u64::MAX);
    assert!(!next.banner_awake);
}
