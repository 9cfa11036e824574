use quartz::prop_chan::{PropChan, PropChanError, PropChanState};

#[test]
fn future_broadcasts_one_value() {
    let mut p1 = PropChan::<usize>::new();

    let (interesting, empty) = p1.sample().unwrap();
    assert!(!interesting);
    assert!(empty.read().is_none());
    assert!(matches!(p1.state(), PropChanState::Open));

    p1.send(1).unwrap();
    assert!(matches!(p1.state(), PropChanState::Complete));

    let e = p1.send(2);
    assert!(matches!(e, Err(PropChanError::UsedSendChanError)));

    let first = p1.recv().unwrap();
    assert_eq!(*first.read(), Some(1));

    let second = p1.recv().unwrap();
    assert_eq!(*second.read(), Some(1));

    let (etre, result) = p1.sample().unwrap();
    assert!(etre);
    assert_eq!(*result.read(), Some(1));
}

#[test]
fn future_handles_share_contents() {
    let mut p1 = PropChan::<usize>::new();
    p1.send(6).unwrap();

    let a = p1.recv().unwrap();
    let b = a.clone();
    assert_eq!(*a.read(), Some(6));
    assert_eq!(*b.read(), Some(6));
}

#[test]
fn future_refused_send_leaves_the_value() {
    let mut p1 = PropChan::<usize>::new();
    p1.send(10).unwrap();
    assert!(p1.send(11).is_err());
    assert_eq!(*p1.recv().unwrap().read(), Some(10));
}
