use std::time::Instant;

use icelite::engine::{EngineSignal, IceState};
use icelite::session::{advance, Directive};

#[test]
fn elapsed_deadline_becomes_a_synthetic_input_not_a_receive() {
    let d = advance(EngineSignal::Deadline(Instant::now()), 0);
    assert!(matches!(d, Directive::FeedElapsed));
}

#[test]
fn pending_deadline_becomes_a_positive_receive_timeout() {
    let d = advance(EngineSignal::Deadline(Instant::now()), 25_000_000);
    match d {
        Directive::Receive { timeout_nanos } => {
            assert_eq!(timeout_nanos, 25_000_000);
            assert!(timeout_nanos > 0);
        }
        _ => panic!("expected a receive directive"),
    }
}

#[test]
fn disconnect_report_finishes_the_loop() {
    let d = advance(EngineSignal::IceChange(IceState::Disconnected), 0);
    assert!(matches!(d, Directive::Finish));
}

#[test]
fn other_connectivity_states_keep_polling() {
    for s in [
        IceState::New,
        IceState::Checking,
        IceState::Connected,
        IceState::Completed,
        IceState::Other,
    ] {
        let d = advance(EngineSignal::IceChange(s), 0);
        assert!(matches!(d, Directive::Poll));
    }
}

#[test]
fn unrelated_events_keep_polling() {
    let d = advance(EngineSignal::OtherEvent, 0);
    assert!(matches!(d, Directive::Poll));
}

#[test]
fn transmits_are_sent_through_unchanged() {
    let transmit = str0m::net::Transmit {
        proto: str0m::net::Protocol::Udp,
        source: "198.51.100.1:9000".parse().unwrap(),
        destination: "198.51.100.2:9001".parse().unwrap(),
        contents: vec![1u8, 2, 3].into(),
    };
    let d = advance(EngineSignal::Transmit(transmit), 0);
    match d {
        Directive::Send(t) => {
            assert_eq!(t.destination, "198.51.100.2:9001".parse().unwrap());
            let bytes: Vec<u8> = t.contents.into();
            assert_eq!(bytes, vec![1u8, 2, 3]);
        }
        _ => panic!("expected a send directive"),
    }
}
