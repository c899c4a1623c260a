use std::time::{Duration, Instant};

use tracing_pipeline::operations::{foo, trace_me, Action, Level};

#[test]
fn trace_me_adds_one_and_three() {
    assert_eq!(trace_me(1, 3), 4);
}

#[test]
fn trace_me_adds_zero() {
    assert_eq!(trace_me(0, 0), 0);
    assert_eq!(trace_me(7, 0), 7);
    assert_eq!(trace_me(0, 7), 7);
}

#[test]
fn trace_me_reaches_the_largest_sum() {
    assert_eq!(trace_me(u32::MAX, 0), u32::MAX);
    assert_eq!(trace_me(u32::MAX - 1, 1), u32::MAX);
    assert_eq!(trace_me(1 << 31, (1 << 31) - 1), u32::MAX);
}

#[test]
fn trace_me_does_not_care_for_the_order() {
    assert_eq!(trace_me(12, 30), 42);
    assert_eq!(trace_me(30, 12), 42);
}

#[test]
fn foo_pauses_then_emits() {
    assert_eq!(
        foo(100),
        vec![
            Action::Sleep { millis: 100 },
            Action::Emit { level: Level::Info, message: "Inside foo" },
        ]
    );
}

#[test]
fn foo_keeps_the_duration_it_is_given() {
    assert_eq!(foo(0)[0], Action::Sleep { millis: 0 });
    assert_eq!(foo(1)[0], Action::Sleep { millis: 1 });
    assert_eq!(foo(u64::MAX)[0], Action::Sleep { millis: u64::MAX });
}

#[test]
fn foo_emits_exactly_one_informational_event() {
    for duration in [0, 100, 60_000] {
        let mut events = Vec::new();
        for step in foo(duration) {
            if let Action::Emit { level, message } = step {
                events.push((level, message));
            }
        }
        assert_eq!(events, vec![(Level::Info, "Inside foo")]);
    }
}

#[test]
fn foo_sleeps_before_it_emits() {
    let steps = foo(100);
    assert_eq!(steps.len(), 2);
    assert!(matches!(steps[0], Action::Sleep { .. }));
    assert!(matches!(steps[1], Action::Emit { .. }));
}

#[test]
fn foo_takes_its_time_on_the_timer() {
    let steps = foo(100);
    let mut runtime = monoio::RuntimeBuilder::<monoio::FusionDriver>::new()
        .enable_timer()
        .build()
        .expect("a runtime with a timer");
    let started = Instant::now();
    let events = runtime.block_on(async move {
        let mut events = Vec::new();
        for step in steps {
            match step {
                Action::Sleep { millis } => {
                    monoio::time::sleep(Duration::from_millis(millis)).await
                }
                Action::Emit { level, message } => events.push((level, message)),
            }
        }
        events
    });
    assert!(started.elapsed() >= Duration::from_millis(100));
    assert_eq!(events, vec![(Level::Info, "Inside foo")]);
}
