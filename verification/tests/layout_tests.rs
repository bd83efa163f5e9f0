use candy_count::layout::LayoutPlanner;

#[test]
fn zero_items_empty_layout() {
    let cells = LayoutPlanner::positions(0, 20);
    assert!(cells.is_empty());
}

#[test]
fn exact_multiple_fills_rows_only() {
    let cells = LayoutPlanner::positions(20, 20);
    assert_eq!(cells.len(), 20);
    for (i, cell) in cells.iter().enumerate() {
        assert_eq!(*cell, (i as i32, 0));
    }
}

#[test]
fn one_past_multiple_starts_new_row() {
    let cells = LayoutPlanner::positions(21, 20);
    assert_eq!(cells.len(), 21);
    assert_eq!(cells[19], (19, 0));
    assert_eq!(cells[20], (0, 1));
}

#[test]
fn partial_single_row() {
    let cells = LayoutPlanner::positions(5, 20);
    assert_eq!(cells, vec![(0, 0), (1, 0), (2, 0), (3, 0), (4, 0)]);
}

#[test]
fn row_major_order() {
    let cells = LayoutPlanner::positions(45, 20);
    assert_eq!(cells.len(), 45);
    for (i, cell) in cells.iter().enumerate() {
        let i: i32 = i as i32;
        assert_eq!(*cell, (i % 20, i / 20));
    }
    // Rows 0 and 1 are full; row 2 holds the remaining 5 items.
    assert_eq!(cells.iter().filter(|c| c.1 == 2).count(), 5);
    assert_eq!(cells.last(), Some(&(4, 2)));
}

#[test]
fn narrow_rows() {
    let cells = LayoutPlanner::positions(3, 1);
    assert_eq!(cells, vec![(0, 0), (0, 1), (0, 2)]);
}
