use blinky::sequencer::run;
use blinky::sequencer::step;
use blinky::sequencer::Action;
use blinky::sequencer::Directive;
use blinky::sequencer::Event;
use blinky::sequencer::MockHal;
use blinky::sequencer::Outcome;
use blinky::sequencer::State;
use blinky::sequencer::LED_PIN;

fn healthy_hal() -> MockHal {
    MockHal { print_status: 0, enable_status: 0, set_statuses: vec![0; 10], tick_factor: 3 }
}

fn assert_print(action: &Action, payload: &[u8]) {
    match action {
        Action::Print { msg } => assert_eq!(msg.as_bytes(), payload),
        other => panic!("expected a print request, got {:?}", other),
    }
}

#[test]
fn healthy_run_completes() {
    let (_, outcome) = run(&healthy_hal());
    assert_eq!(outcome, Outcome::Completed);
}

#[test]
fn healthy_run_prints_the_banner_once() {
    let (trace, _) = run(&healthy_hal());
    assert_print(&trace[0], b"Hello from Rust!\0");
    let prints = trace.iter().filter(|a| matches!(a, Action::Print { .. })).count();
    assert_eq!(prints, 1);
}

#[test]
fn healthy_run_configures_the_pin_once() {
    let (trace, _) = run(&healthy_hal());
    match trace[1] {
        Action::EnableOutput { pin, pullup, pulldown } => {
            assert_eq!(pin, LED_PIN);
            assert_eq!(pullup, 0);
            assert_eq!(pulldown, 0);
        },
        ref other => panic!("expected enable-output, got {:?}", other),
    }
    let enables = trace.iter().filter(|a| matches!(a, Action::EnableOutput { .. })).count();
    assert_eq!(enables, 1);
}

#[test]
fn healthy_run_toggles_ten_alternating_levels() {
    let (trace, _) = run(&healthy_hal());
    assert_eq!(trace.len(), 32);
    let mut levels = Vec::new();
    for action in &trace {
        if let Action::SetOutput { pin, level } = action {
            assert_eq!(*pin, LED_PIN);
            levels.push(*level);
        }
    }
    assert_eq!(levels, vec![0, 1, 0, 1, 0, 1, 0, 1, 0, 1]);
}

#[test]
fn each_set_is_followed_by_one_conversion_and_one_delay() {
    let (trace, _) = run(&healthy_hal());
    for i in 0..10usize {
        match trace[2 + 3 * i] {
            Action::SetOutput { pin, level } => {
                assert_eq!(pin, LED_PIN);
                assert_eq!(level as usize, i % 2);
            },
            ref other => panic!("expected set-output, got {:?}", other),
        }
        match trace[3 + 3 * i] {
            Action::ConvertTicks { ms } => assert_eq!(ms, 1000),
            ref other => panic!("expected a tick conversion, got {:?}", other),
        }
        match trace[4 + 3 * i] {
            Action::Delay { ticks } => assert_eq!(ticks, 3000),
            ref other => panic!("expected a delay, got {:?}", other),
        }
    }
}

#[test]
fn enable_failure_parks_before_any_set() {
    let hal = MockHal { enable_status: 7, ..healthy_hal() };
    let (trace, outcome) = run(&hal);
    assert_eq!(outcome, Outcome::Parked);
    assert_eq!(trace.len(), 3);
    assert_print(&trace[0], b"Hello from Rust!\0");
    assert!(matches!(trace[1], Action::EnableOutput { .. }));
    assert_print(&trace[2], b"Fault: system halted\0");
    let sets = trace.iter().filter(|a| matches!(a, Action::SetOutput { .. })).count();
    assert_eq!(sets, 0);
}

#[test]
fn set_failure_parks_mid_sequence() {
    let mut hal = healthy_hal();
    hal.set_statuses[3] = -9;
    let (trace, outcome) = run(&hal);
    assert_eq!(outcome, Outcome::Parked);
    // opening two actions, three full iterations, the failing set, the fallback
    assert_eq!(trace.len(), 13);
    assert!(matches!(trace[11], Action::SetOutput { level: 1, .. }));
    assert_print(&trace[12], b"Fault: system halted\0");
}

#[test]
fn print_status_is_ignored() {
    let hal = MockHal { print_status: 42, ..healthy_hal() };
    let (_, outcome) = run(&hal);
    assert_eq!(outcome, Outcome::Completed);
}

#[test]
fn step_walks_the_happy_path() {
    let (s, d) = step(State::Start, Event::Go);
    assert_eq!(s, State::BannerSent);
    match d {
        Directive::Emit(a) => assert_print(&a, b"Hello from Rust!\0"),
        other => panic!("expected an emitted action, got {:?}", other),
    }
    let (s, _) = step(s, Event::Status(0));
    assert_eq!(s, State::ConfigSent);
    let (s, _) = step(s, Event::Status(0));
    assert_eq!(s, State::SetSent { i: 0 });
    let (s, _) = step(s, Event::Status(0));
    assert_eq!(s, State::TicksRequested { i: 0 });
    let (s, d) = step(s, Event::Ticks(500));
    assert_eq!(s, State::Delaying { i: 0 });
    assert!(matches!(d, Directive::Emit(Action::Delay { ticks: 500 })));
    let (s, _) = step(s, Event::Elapsed);
    assert_eq!(s, State::SetSent { i: 1 });
}

#[test]
fn last_delay_finishes_the_sequence() {
    let (s, d) = step(State::Delaying { i: 9 }, Event::Elapsed);
    assert_eq!(s, State::Done);
    assert!(matches!(d, Directive::Finish));
}

#[test]
fn fault_handler_never_returns_control() {
    // drive the machine into the fault on a failed configuration
    let (s, d) = step(State::ConfigSent, Event::Status(3));
    assert_eq!(s, State::Faulted);
    match d {
        Directive::Emit(a) => assert_print(&a, b"Fault: system halted\0"),
        other => panic!("expected the fallback print, got {:?}", other),
    }
    // once the fallback print reports, the machine parks for good: whatever
    // event arrives, it stays parked and only ever asks for a halt
    let (s, d) = step(s, Event::Status(0));
    assert_eq!(s, State::Parked);
    assert!(matches!(d, Directive::Halt));
    for event in [Event::Go, Event::Status(0), Event::Ticks(1), Event::Elapsed] {
        let (s2, d2) = step(s, event);
        assert_eq!(s2, State::Parked);
        assert!(matches!(d2, Directive::Halt));
    }
}
