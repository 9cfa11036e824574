use quartz::ping::{Ping, PingError, PingState};

#[test]
fn ping_transfers_exactly_once() {
    let mut p1 = Ping::<bool>::new();
    assert!(matches!(p1.state(), PingState::Open));

    p1.send(true).unwrap();
    assert!(matches!(p1.state(), PingState::AwaitRecv));

    let got = p1.recv().unwrap();
    assert_eq!(got, Some(true));
    assert!(matches!(p1.state(), PingState::Used));

    let err1 = p1.send(true);
    assert!(matches!(err1, Err(PingError::UsedSendChanError)));

    let err2 = p1.recv();
    assert!(matches!(err2, Err(PingError::UsedRecvChanError)));
}

#[test]
fn ping_errors_use_its_own_vocabulary() {
    let mut c = Ping::<usize>::new();
    c.send(4).unwrap();
    assert_eq!(c.send(5), Err(PingError::UsedSendChanError));
    assert_eq!(c.recv(), Ok(Some(4)));
    assert_eq!(c.recv(), Err(PingError::UsedRecvChanError));
}
