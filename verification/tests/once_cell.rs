use quartz::once_cell::{OnceCell, OnceCellError, OnceCellState};

#[test]
fn lib_test_i_var_partial_eq() {
    let mut p1 = OnceCell::<usize>::new();
    let mut p2 = OnceCell::<usize>::new();
    let mut p3 = OnceCell::<usize>::new();

    assert_eq!(p1, p2);
    assert_eq!(p1, p3);
    assert_eq!(p3, p2);

    p1.write(1).unwrap();

    assert_ne!(p1, p2);
    assert_ne!(p1, p3);
    assert_eq!(p3, p2);

    p2.write(1).unwrap();
    p3.write(2).unwrap();

    assert_eq!(p1, p2);
    assert_ne!(p1, p3);
    assert_ne!(p3, p2);
}

#[test]
fn once_cell_pins_first_value_and_reports_mismatch() {
    let mut p1 = OnceCell::<usize>::new();

    let (interesting, empty) = p1.sample().unwrap();
    assert!(!interesting);
    assert!(empty.read().is_none());
    assert!(matches!(p1.state(), OnceCellState::Empty));

    p1.write(1).unwrap();
    assert!(matches!(p1.state(), OnceCellState::Filled));

    let e = p1.write(2);
    assert!(matches!(e, Err(OnceCellError::ValueMismatch)));

    let no_e = p1.write(1);
    assert!(no_e.is_ok());

    let handle = p1.read().unwrap();
    assert_eq!(*handle.read(), Some(1));

    let (etre, result) = p1.sample().unwrap();
    assert!(etre);
    assert_eq!(*result.read(), Some(1));
}

#[test]
fn once_cell_handles_share_contents() {
    let mut p1 = OnceCell::<usize>::new();
    p1.write(9).unwrap();

    let a = p1.read().unwrap();
    let b = a.clone();
    assert_eq!(*a.read(), Some(9));
    assert_eq!(*b.read(), Some(9));
    assert_eq!(a, b);
}

#[test]
fn nested_once_cell_carries_a_cell() {
    let mut p1 = OnceCell::<usize>::new();
    let mut p2 = OnceCell::<OnceCell<usize>>::new();

    p1.write(22).unwrap();
    p2.write(p1).unwrap();

    let outer = p2.read().unwrap();
    match &*outer.read() {
        Some(inner) => {
            let d = inner.read().unwrap();
            assert_eq!(*d.read(), Some(22));
        }
        None => panic!("Heard None in contrived value wrapper"),
    }
}
