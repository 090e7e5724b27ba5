use replica_proxy::relay::{RelayAction, StreamRelay};

/// Hands the readings to a relay one by one and collects what it sends on,
/// with the number of readings it took before it closed.
fn run(readings: Vec<Option<Result<&'static str, &'static str>>>) -> (Vec<&'static str>, usize) {
    let mut relay = StreamRelay::new();
    let mut sent = Vec::new();
    let mut taken = 0;
    for reading in readings {
        taken += 1;
        match relay.relay(reading) {
            RelayAction::Forward(item) => sent.push(item),
            RelayAction::Close => break,
        }
    }
    (sent, taken)
}

#[test]
fn a_read_error_cuts_the_stream_short() {
    let (sent, taken) = run(vec![Some(Ok("A")), Some(Ok("B")), Some(Err("read error")), Some(Ok("C"))]);
    assert_eq!(sent, vec!["A", "B"]);
    assert_eq!(taken, 3);
}

#[test]
fn a_read_error_looks_like_the_end_of_the_stream() {
    let mut failing = StreamRelay::new();
    let mut ending = StreamRelay::new();
    assert_eq!(failing.relay::<u8, &str>(Some(Err("read error"))), RelayAction::Close);
    assert_eq!(ending.relay::<u8, &str>(None), RelayAction::Close);
    assert_eq!(failing, ending);
}

#[test]
fn a_closed_relay_lets_nothing_pass() {
    let mut relay = StreamRelay::new();
    assert_eq!(relay.relay::<&str, &str>(Some(Ok("A"))), RelayAction::Forward("A"));
    assert!(!relay.is_closed());
    assert_eq!(relay.relay::<&str, &str>(Some(Err("read error"))), RelayAction::Close);
    assert!(relay.is_closed());
    assert_eq!(relay.relay::<&str, &str>(Some(Ok("C"))), RelayAction::Close);
    assert_eq!(relay.relay::<&str, &str>(None), RelayAction::Close);
    assert!(relay.is_closed());
}

#[test]
fn a_stream_without_errors_is_relayed_whole_and_in_order() {
    let (sent, taken) = run(vec![Some(Ok("A")), Some(Ok("B")), Some(Ok("C")), None]);
    assert_eq!(sent, vec!["A", "B", "C"]);
    assert_eq!(taken, 4);
}

#[test]
fn an_empty_stream_relays_nothing() {
    assert_eq!(run(vec![None]), (vec![], 1));
    assert_eq!(run(vec![]), (vec![], 0));
}

#[test]
fn a_stream_that_fails_at_once_relays_nothing() {
    assert_eq!(run(vec![Some(Err("read error")), Some(Ok("A"))]), (vec![], 1));
}

#[test]
fn a_new_relay_is_open() {
    assert!(!StreamRelay::new().is_closed());
}
