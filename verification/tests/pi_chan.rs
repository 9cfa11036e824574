use quartz::pi_chan::{PiChan, PiChanError, PiChanState};

#[test]
fn chan_transfers_exactly_once() {
    let mut p1 = PiChan::<bool>::new();
    assert!(matches!(p1.state(), PiChanState::Open));

    p1.send(true).unwrap();
    assert!(matches!(p1.state(), PiChanState::AwaitRecv));

    let got = p1.recv().unwrap();
    assert_eq!(got, Some(true));
    assert!(matches!(p1.state(), PiChanState::Used));

    let err1 = p1.send(true);
    assert!(matches!(err1, Err(PiChanError::UsedSendChanError)));

    let err2 = p1.recv();
    assert!(matches!(err2, Err(PiChanError::UsedRecvChanError)));
}

#[test]
fn chan_second_sender_is_refused_before_transfer_completes() {
    let mut c = PiChan::<usize>::new();
    c.send(8).unwrap();

    let refused = c.send(9);
    assert!(matches!(refused, Err(PiChanError::UsedSendChanError)));

    // The refused send did not disturb the value in flight.
    assert_eq!(c.recv().unwrap(), Some(8));
}

#[test]
fn chan_state_tracks_the_flags() {
    let mut c = PiChan::<usize>::new();
    assert_eq!(c.state(), PiChanState::Open);
    c.send(3).unwrap();
    assert_eq!(c.state(), PiChanState::AwaitRecv);
    c.recv().unwrap();
    assert_eq!(c.state(), PiChanState::Used);
}
