use audio_engine::command_handler::{DecodeOutcome, HostEvent, SeekOutcome};
use audio_engine::engine::{engine_init, engine_step, Delivery, EngineState};
use audio_engine::errors::CommandError;
use audio_engine::sink::SourceInfo;

fn step(state: &EngineState, command: &str, arg: &str, event: HostEvent) -> (EngineState, Delivery) {
    engine_step(state, &command.to_string(), &arg.to_string(), event)
}

fn loaded(duration_ms: u64) -> HostEvent {
    HostEvent::SourceLoaded { outcome: DecodeOutcome::Decoded { duration_ms: Some(duration_ms) } }
}

#[test]
fn full_session_scenario() {
    let s0 = engine_init();
    assert_eq!(s0.src, None);
    assert_eq!(s0.sink.queued, None);

    // SET_SRC("track.wav") returns the duration
    let (s1, d1) = step(&s0, "SET_SRC", "track.wav", loaded(180000));
    assert_eq!(d1, Delivery::Value { value: 180000 });
    assert_eq!(s1.src, Some(SourceInfo { duration_ms: 180000 }));

    // PLAY() succeeds with the default value
    let (s2, d2) = step(&s1, "PLAY", "", HostEvent::Nothing);
    assert_eq!(d2, Delivery::Value { value: 0 });
    assert!(!s2.sink.paused);

    // GET_VOLUME() reads the default unity gain
    let (s3, d3) = step(&s2, "GET_VOLUME", "", HostEvent::Nothing);
    assert_eq!(d3, Delivery::Value { value: 1_000_000 });

    // SET_VOLUME("0.5") then GET_VOLUME() reads it back
    let (s4, d4) = step(&s3, "SET_VOLUME", "0.5", HostEvent::Nothing);
    assert_eq!(d4, Delivery::Value { value: 0 });
    let (s5, d5) = step(&s4, "GET_VOLUME", "", HostEvent::Nothing);
    assert_eq!(d5, Delivery::Value { value: 500_000 });

    // SEEK("90000") succeeds
    let (s6, d6) = step(
        &s5,
        "SEEK",
        "90000",
        HostEvent::SeekFinished { outcome: SeekOutcome::Seeked },
    );
    assert_eq!(d6, Delivery::Value { value: 0 });

    // GET_POSITION() after the seek: at or past the target, within duration
    let (s7, d7) = step(&s6, "GET_POSITION", "", HostEvent::PositionRead {
        elapsed_ms: Some(90120),
    });
    match d7 {
        Delivery::Value { value } => assert!(value >= 90000 && value <= 180000),
        Delivery::Failure { .. } => panic!("position query must not fail"),
    }

    // PAUSE(), then two position reads while paused agree
    let (s8, d8) = step(&s7, "PAUSE", "", HostEvent::Nothing);
    assert_eq!(d8, Delivery::Value { value: 0 });
    let (s9, d9) = step(&s8, "GET_POSITION", "", HostEvent::PositionRead {
        elapsed_ms: Some(90120),
    });
    let (s10, d10) = step(&s9, "GET_POSITION", "", HostEvent::PositionRead {
        elapsed_ms: Some(90120),
    });
    assert_eq!(d9, d10);
    assert_eq!(s9, s8);
    assert_eq!(s10, s8);

    // STOP(), then the position defaults to zero even against a stale
    // reading from the halted source
    let (s11, d11) = step(&s10, "STOP", "", HostEvent::Nothing);
    assert_eq!(d11, Delivery::Value { value: 0 });
    assert_eq!(s11.sink.queued, None);
    let (_, d12) = step(&s11, "GET_POSITION", "", HostEvent::PositionRead {
        elapsed_ms: Some(90120),
    });
    assert_eq!(d12, Delivery::Value { value: 0 });
}

#[test]
fn position_after_stop_is_default_until_a_new_source() {
    let s0 = engine_init();
    let (s1, _) = step(&s0, "SET_SRC", "a.wav", loaded(60000));
    let (s2, _) = step(&s1, "PLAY", "", HostEvent::Nothing);
    let (s3, _) = step(&s2, "STOP", "", HostEvent::Nothing);
    // a stale nonzero reading must not surface after STOP
    let (s4, d4) = step(&s3, "GET_POSITION", "", HostEvent::PositionRead {
        elapsed_ms: Some(4321),
    });
    assert_eq!(d4, Delivery::Value { value: 0 });
    assert_eq!(s4, s3);
    // loading a new source makes position reporting live again, for the
    // new source only
    let (s5, _) = step(&s4, "SET_SRC", "b.wav", loaded(90000));
    let (_, d6) = step(&s5, "GET_POSITION", "", HostEvent::PositionRead {
        elapsed_ms: Some(12),
    });
    assert_eq!(d6, Delivery::Value { value: 12 });
}

#[test]
fn invalid_command_names_the_offender_and_changes_nothing() {
    let s0 = engine_init();
    let (s1, d1) = step(&s0, "FOO", "", HostEvent::Nothing);
    assert_eq!(
        d1,
        Delivery::Failure { error: CommandError::InvalidCommand { name: "FOO".to_string() } }
    );
    assert_eq!(s1, s0);
    match d1 {
        Delivery::Failure { error } => assert_eq!(error.message(), "invalid command: FOO"),
        Delivery::Value { .. } => panic!("FOO must not succeed"),
    }
}

#[test]
fn parse_error_leaves_prior_volume() {
    let s0 = engine_init();
    let (s1, _) = step(&s0, "SET_VOLUME", "0.2", HostEvent::Nothing);
    let (s2, d2) = step(&s1, "SET_VOLUME", "not-a-number", HostEvent::Nothing);
    assert_eq!(
        d2,
        Delivery::Failure {
            error: CommandError::ParseFloatError { argument: "not-a-number".to_string() }
        }
    );
    assert_eq!(s2, s1);
    let (_, d3) = step(&s2, "GET_VOLUME", "", HostEvent::Nothing);
    assert_eq!(d3, Delivery::Value { value: 200_000 });
}

#[test]
fn set_src_replaces_the_previous_source() {
    let s0 = engine_init();
    let (s1, _) = step(&s0, "SET_SRC", "a.wav", loaded(1000));
    let (s2, d2) = step(&s1, "SET_SRC", "b.wav", loaded(2000));
    assert_eq!(d2, Delivery::Value { value: 2000 });
    assert_eq!(s2.src, Some(SourceInfo { duration_ms: 2000 }));
    assert_eq!(s2.sink.queued, Some(SourceInfo { duration_ms: 2000 }));
}

#[test]
fn position_reads_use_the_previous_source() {
    // the descriptor captured before the command runs decides whether a
    // reading counts: with no source retained, no reading is reported
    let s0 = engine_init();
    let (_, d) = step(&s0, "GET_POSITION", "", HostEvent::PositionRead { elapsed_ms: Some(5) });
    assert_eq!(d, Delivery::Value { value: 0 });
}

#[test]
fn errors_never_change_retained_state() {
    let s0 = engine_init();
    let (s1, _) = step(&s0, "SET_SRC", "a.wav", loaded(5000));
    let cases: Vec<(&str, &str, HostEvent)> = vec![
        ("SEEK", "oops", HostEvent::Nothing),
        ("SET_VOLUME", "oops", HostEvent::Nothing),
        ("BAR", "", HostEvent::Nothing),
        (
            "SET_SRC",
            "gone.wav",
            HostEvent::SourceLoaded {
                outcome: DecodeOutcome::OpenFailed { reason: "gone".to_string() },
            },
        ),
        (
            "SEEK",
            "10",
            HostEvent::SeekFinished {
                outcome: SeekOutcome::Rejected { reason: "end".to_string() },
            },
        ),
    ];
    for (cmd, arg, event) in cases {
        let (s2, d) = step(&s1, cmd, arg, event);
        match d {
            Delivery::Failure { .. } => assert_eq!(s2, s1),
            Delivery::Value { .. } => panic!("case {cmd} {arg} must fail"),
        }
    }
}

#[test]
fn one_delivery_per_command_in_order() {
    // a short mixed run: every command yields exactly one delivery, and the
    // effects land in queue order
    let mut state = engine_init();
    let script: Vec<(&str, &str, HostEvent)> = vec![
        ("SET_VOLUME", "0.2", HostEvent::Nothing),
        ("SET_VOLUME", "0.7", HostEvent::Nothing),
        ("GET_VOLUME", "", HostEvent::Nothing),
    ];
    let mut deliveries = Vec::new();
    for (cmd, arg, event) in &script {
        let (next, d) = step(&state, cmd, arg, event.clone());
        state = next;
        deliveries.push(d);
    }
    assert_eq!(deliveries.len(), 3);
    // the later SET_VOLUME wins: the read sees 0.7, not 0.2
    assert_eq!(deliveries[2], Delivery::Value { value: 700_000 });
}
