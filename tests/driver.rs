use filter::{Action, ChildExit, Driver, Event, Phase, Report};

fn chunk(b: &[u8]) -> Event {
    Event::Chunk(b.to_vec())
}

#[test]
fn driver_feeds_input_before_reading_output() {
    let mut d = Driver::new();
    assert_eq!(d.step(chunk(b"abc")), Action::FeedChild(b"abc".to_vec()));
    assert_eq!(d.step(chunk(b"de")), Action::FeedChild(b"de".to_vec()));
    assert_eq!(d.step(chunk(b"")), Action::CloseChildInput);
    assert_eq!(d.phase, Phase::Collecting);
}

#[test]
fn driver_stores_output_unchanged() {
    let mut d = Driver::new();
    d.step(chunk(b""));
    let big = vec![0x5Au8; 3 * 1024 * 1024];
    let mut stored = Vec::new();
    for part in [&big[..1_000_000], &big[1_000_000..]] {
        match d.step(chunk(part)) {
            Action::StoreOutput(bytes) => stored.extend_from_slice(&bytes),
            other => panic!("unexpected action {:?}", other),
        }
    }
    assert_eq!(d.step(chunk(b"")), Action::ReadDiagnostics);
    assert_eq!(stored, big);
}

#[test]
fn driver_with_empty_streams_succeeds() {
    let mut d = Driver::new();
    assert_eq!(d.step(chunk(b"")), Action::CloseChildInput);
    assert_eq!(d.step(chunk(b"")), Action::ReadDiagnostics);
    assert_eq!(d.step(chunk(b"")), Action::AwaitExit);
    let exit = ChildExit { success: true, code: Some(0) };
    assert_eq!(
        d.step(Event::Exited(exit)),
        Action::Finish(Report { exit_code: 0, child: exit, diagnostics: Vec::new() })
    );
    assert_eq!(d.phase, Phase::Done);
}

#[test]
fn failing_child_gives_exit_code_one_and_full_diagnostics() {
    let mut d = Driver::new();
    d.step(chunk(b"input"));
    d.step(chunk(b""));
    d.step(chunk(b""));
    assert_eq!(d.step(chunk(b"Failed to load ")), Action::ReadDiagnostics);
    assert_eq!(d.step(chunk(b"image\n")), Action::ReadDiagnostics);
    assert_eq!(d.step(chunk(b"")), Action::AwaitExit);
    let exit = ChildExit { success: false, code: Some(3) };
    match d.step(Event::Exited(exit)) {
        Action::Finish(r) => {
            assert_eq!(r.exit_code, 1);
            assert_eq!(r.diagnostics, b"Failed to load image\n".to_vec());
            assert_eq!(r.child, exit);
        }
        other => panic!("unexpected action {:?}", other),
    }
}

#[test]
fn succeeding_child_keeps_warnings() {
    let mut d = Driver::new();
    d.step(chunk(b""));
    d.step(chunk(b""));
    d.step(chunk(b"note"));
    d.step(chunk(b""));
    match d.step(Event::Exited(ChildExit { success: true, code: Some(0) })) {
        Action::Finish(r) => {
            assert_eq!(r.exit_code, 0);
            assert_eq!(r.diagnostics, b"note".to_vec());
        }
        other => panic!("unexpected action {:?}", other),
    }
}

#[test]
fn driver_accepts_only_the_expected_event() {
    let mut d = Driver::new();
    let exit = Event::Exited(ChildExit { success: true, code: None });
    assert!(d.accepts(&chunk(b"x")));
    assert!(!d.accepts(&exit));
    d.step(chunk(b""));
    d.step(chunk(b""));
    d.step(chunk(b""));
    assert!(d.accepts(&exit));
    assert!(!d.accepts(&chunk(b"x")));
    d.step(exit.clone());
    assert!(!d.accepts(&exit));
}
