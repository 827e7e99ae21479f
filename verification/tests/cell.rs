use life_engine::cell::Cell;

#[test]
fn bytes_of_the_two_states() {
    assert_eq!(Cell::Dead.to_byte(), 0);
    assert_eq!(Cell::Alive.to_byte(), 1);
}

#[test]
fn live_cell_with_fewer_than_two_neighbors_dies() {
    assert_eq!(Cell::Alive.next_state(0), Cell::Dead);
    assert_eq!(Cell::Alive.next_state(1), Cell::Dead);
}

#[test]
fn live_cell_with_two_or_three_neighbors_lives() {
    assert_eq!(Cell::Alive.next_state(2), Cell::Alive);
    assert_eq!(Cell::Alive.next_state(3), Cell::Alive);
}

#[test]
fn live_cell_with_more_than_three_neighbors_dies() {
    for count in 4..=8 {
        assert_eq!(Cell::Alive.next_state(count), Cell::Dead);
    }
}

#[test]
fn dead_cell_with_three_neighbors_is_born() {
    assert_eq!(Cell::Dead.next_state(3), Cell::Alive);
}

#[test]
fn dead_cell_with_any_other_count_stays_dead() {
    for count in [0u8, 1, 2, 4, 5, 6, 7, 8] {
        assert_eq!(Cell::Dead.next_state(count), Cell::Dead);
    }
}

#[test]
fn transition_rule_is_total() {
    for count in 9..=u8::MAX {
        assert_eq!(Cell::Alive.next_state(count), Cell::Dead);
        assert_eq!(Cell::Dead.next_state(count), Cell::Dead);
    }
}

#[test]
fn cells_compare_and_copy() {
    let cell = Cell::Alive;
    let copy = cell;
    assert_eq!(cell, copy);
    assert_ne!(Cell::Alive, Cell::Dead);
    assert_eq!(format!("{:?}", Cell::Dead), "Dead");
}
