use ta::CircularWindow;

#[test]
fn circular_window_returns_the_placeholder_until_it_is_full() {
    let mut window = CircularWindow::<3>::new(-7);
    assert_eq!(window.len(), 0);
    assert!(!window.is_full());
    assert_eq!(window.push(10), -7);
    assert_eq!(window.push(20), -7);
    assert!(!window.is_full());
    assert_eq!(window.push(30), -7);
    assert!(window.is_full());
    assert_eq!(window.len(), 3);
}

#[test]
fn circular_window_evicts_the_oldest_value() {
    let mut window = CircularWindow::<3>::new(0);
    for x in [1, 2, 3] {
        window.push(x);
    }
    assert_eq!(window.push(4), 1);
    assert_eq!(window.push(5), 2);
    assert_eq!(window.push(6), 3);
    assert_eq!(window.push(7), 4);
    assert_eq!(window.len(), 3);
}

#[test]
fn circular_window_reads_in_arrival_order() {
    let mut window = CircularWindow::<4>::new(0);
    for x in [1, 2, 3, 4, 5, 6] {
        window.push(x);
    }
    assert_eq!(window.get(0), 3);
    assert_eq!(window.get(1), 4);
    assert_eq!(window.get(2), 5);
    assert_eq!(window.get(3), 6);
    assert_eq!(window.cursor(), 2);
    assert_eq!(window.slot(0), 5);
    assert_eq!(window.slot(1), 6);
    assert_eq!(window.slot(2), 3);
    assert_eq!(window.slot(3), 4);
}

#[test]
fn circular_window_reads_in_arrival_order_while_filling() {
    let mut window = CircularWindow::<4>::new(9);
    window.push(1);
    window.push(2);
    assert_eq!(window.get(0), 1);
    assert_eq!(window.get(1), 2);
    assert_eq!(window.cursor(), 2);
    assert_eq!(window.slot(2), 9);
    assert_eq!(window.slot(3), 9);
}

#[test]
fn circular_window_of_one_slot() {
    let mut window = CircularWindow::<1>::new(0);
    assert_eq!(window.push(5), 0);
    assert_eq!(window.push(6), 5);
    assert_eq!(window.get(0), 6);
    assert_eq!(window.cursor(), 0);
    assert!(window.is_full());
}

#[test]
fn circular_window_reset_empties_it() {
    let mut window = CircularWindow::<2>::new(-1);
    window.push(5);
    window.push(6);
    window.push(7);
    window.reset();
    assert_eq!(window.len(), 0);
    assert_eq!(window.cursor(), 0);
    assert_eq!(window.slot(0), -1);
    assert_eq!(window.slot(1), -1);
    assert_eq!(window.push(8), -1);
    assert_eq!(window.get(0), 8);
}
