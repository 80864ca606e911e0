use fluid_sim::mesh::create_index_buffer;
use fluid_sim::{Bound, CornerRule, EdgeRule, FlowBox, Neighbors};

type Grid = FlowBox<i64>;

#[test]
fn index_is_row_major() {
    assert_eq!(Grid::index(&0, &0, &(5, 4)), 0);
    assert_eq!(Grid::index(&3, &2, &(5, 4)), 13);
    assert_eq!(Grid::index(&4, &3, &(5, 4)), 19);
}

#[test]
fn index_takes_coordinates_beyond_the_grid() {
    assert_eq!(Grid::index(&5, &0, &(5, 4)), 5);
    assert_eq!(Grid::index(&0, &4, &(5, 4)), 20);
}

#[test]
fn pos_gives_column_then_row() {
    assert_eq!(Grid::pos(&0, &(5, 4)), (0, 0));
    assert_eq!(Grid::pos(&13, &(5, 4)), (3, 2));
    assert_eq!(Grid::pos(&19, &(5, 4)), (4, 3));
}

#[test]
fn pos_undoes_index_on_every_cell() {
    let dim = (7, 5);
    for y in 0..dim.1 {
        for x in 0..dim.0 {
            let i = Grid::index(&x, &y, &dim);
            assert!(i < dim.0 * dim.1);
            assert_eq!(Grid::pos(&i, &dim), (x, y));
        }
    }
}

#[test]
fn index_undoes_pos_on_every_position() {
    let dim = (7, 5);
    for i in 0..dim.0 * dim.1 {
        let (x, y) = Grid::pos(&i, &dim);
        assert!(x < dim.0 && y < dim.1);
        assert_eq!(Grid::index(&x, &y, &dim), i);
    }
}

#[test]
fn index_gives_every_cell_its_own_position() {
    let dim = (6, 3);
    let mut seen = vec![false; dim.0 * dim.1];
    for y in 0..dim.1 {
        for x in 0..dim.0 {
            let i = Grid::index(&x, &y, &dim);
            assert!(!seen[i]);
            seen[i] = true;
        }
    }
    assert!(seen.iter().all(|s| *s));
}

#[test]
fn cell_at_keeps_points_inside_the_grid() {
    assert_eq!(Grid::cell_at(&1, &1, &(4, 4)), 5);
    assert_eq!(Grid::cell_at(&3, &2, &(4, 4)), 11);
}

#[test]
fn cell_at_pulls_points_back_to_the_nearest_wall() {
    assert_eq!(Grid::cell_at(&100, &100, &(4, 4)), 15);
    assert_eq!(Grid::cell_at(&4, &1, &(4, 4)), 7);
    assert_eq!(Grid::cell_at(&2, &usize::MAX, &(4, 3)), 10);
    assert_eq!(Grid::cell_at(&usize::MAX, &0, &(4, 3)), 3);
}

#[test]
fn sample_index_is_the_index_inside_the_grid() {
    let dim = (4, 3);
    for y in 0..dim.1 {
        for x in 0..dim.0 {
            assert_eq!(Grid::sample_index(&x, &y, &dim), Grid::index(&x, &y, &dim));
        }
    }
}

#[test]
fn sample_index_runs_on_into_the_next_row() {
    assert_eq!(Grid::sample_index(&4, &0, &(4, 3)), 4);
    assert_eq!(Grid::sample_index(&4, &1, &(4, 3)), 8);
}

#[test]
fn sample_index_stops_at_the_last_cell() {
    assert_eq!(Grid::sample_index(&4, &2, &(4, 3)), 11);
    assert_eq!(Grid::sample_index(&0, &3, &(4, 3)), 11);
    assert_eq!(Grid::sample_index(&4, &3, &(4, 3)), 11);
    assert_eq!(Grid::sample_index(&usize::MAX, &usize::MAX, &(4, 3)), 11);
    assert_eq!(Grid::sample_index(&usize::MAX, &1, &(4, 3)), 11);
}

#[test]
fn accepts_wants_two_cells_along_each_axis() {
    assert!(Grid::accepts(2, 2));
    assert!(Grid::accepts(100, 50));
    assert!(!Grid::accepts(1, 50));
    assert!(!Grid::accepts(100, 1));
    assert!(!Grid::accepts(0, 0));
}

#[test]
fn accepts_wants_a_cell_count_that_fits() {
    assert!(!Grid::accepts(usize::MAX, 2));
    assert!(!Grid::accepts(usize::MAX / 2 + 1, 2));
    assert!(Grid::accepts(usize::MAX / 2, 2));
}

#[test]
fn edge_rule_reads_one_row_inward_on_top_and_bottom() {
    let dim = (4, 5);
    for x in 1..3 {
        let top = Grid::index(&x, &0, &dim);
        let bottom = Grid::index(&x, &4, &dim);
        assert_eq!(
            Grid::edge_rule(&Bound::Neither, &top, &dim),
            Some(EdgeRule { source: Grid::index(&x, &1, &dim), negate: false })
        );
        assert_eq!(
            Grid::edge_rule(&Bound::Neither, &bottom, &dim),
            Some(EdgeRule { source: Grid::index(&x, &3, &dim), negate: false })
        );
    }
}

#[test]
fn edge_rule_reads_one_column_inward_on_the_sides() {
    let dim = (4, 5);
    for y in 1..4 {
        let left = Grid::index(&0, &y, &dim);
        let right = Grid::index(&3, &y, &dim);
        assert_eq!(
            Grid::edge_rule(&Bound::Neither, &left, &dim),
            Some(EdgeRule { source: Grid::index(&1, &y, &dim), negate: false })
        );
        assert_eq!(
            Grid::edge_rule(&Bound::Neither, &right, &dim),
            Some(EdgeRule { source: Grid::index(&2, &y, &dim), negate: false })
        );
    }
}

#[test]
fn edge_rule_turns_the_sign_on_rows_for_x_only() {
    let dim = (4, 4);
    assert_eq!(Grid::edge_rule(&Bound::X, &1, &dim), Some(EdgeRule { source: 5, negate: true }));
    assert_eq!(Grid::edge_rule(&Bound::X, &14, &dim), Some(EdgeRule { source: 10, negate: true }));
    assert_eq!(Grid::edge_rule(&Bound::X, &4, &dim), Some(EdgeRule { source: 5, negate: false }));
    assert_eq!(Grid::edge_rule(&Bound::X, &7, &dim), Some(EdgeRule { source: 6, negate: false }));
}

#[test]
fn edge_rule_turns_the_sign_on_columns_for_y_only() {
    let dim = (4, 4);
    assert_eq!(Grid::edge_rule(&Bound::Y, &4, &dim), Some(EdgeRule { source: 5, negate: true }));
    assert_eq!(Grid::edge_rule(&Bound::Y, &11, &dim), Some(EdgeRule { source: 10, negate: true }));
    assert_eq!(Grid::edge_rule(&Bound::Y, &2, &dim), Some(EdgeRule { source: 6, negate: false }));
    assert_eq!(Grid::edge_rule(&Bound::Y, &13, &dim), Some(EdgeRule { source: 9, negate: false }));
}

#[test]
fn edge_rule_leaves_corners_and_inner_cells_alone() {
    let dim = (4, 4);
    for i in [0usize, 3, 12, 15, 5, 6, 9, 10] {
        assert_eq!(Grid::edge_rule(&Bound::X, &i, &dim), None);
        assert_eq!(Grid::edge_rule(&Bound::Y, &i, &dim), None);
        assert_eq!(Grid::edge_rule(&Bound::Neither, &i, &dim), None);
    }
}

#[test]
fn edge_rule_knows_no_cell_beyond_the_grid() {
    assert_eq!(Grid::edge_rule(&Bound::X, &16, &(4, 4)), None);
    assert_eq!(Grid::edge_rule(&Bound::X, &17, &(4, 4)), None);
    assert_eq!(Grid::edge_rule(&Bound::X, &usize::MAX, &(4, 4)), None);
}

#[test]
fn edge_rule_on_a_grid_two_rows_high_crosses_over() {
    let dim = (4, 2);
    assert_eq!(Grid::edge_rule(&Bound::X, &1, &dim), Some(EdgeRule { source: 5, negate: true }));
    assert_eq!(Grid::edge_rule(&Bound::X, &5, &dim), Some(EdgeRule { source: 1, negate: true }));
}

#[test]
fn corner_rules_come_in_their_order() {
    let rules = Grid::corner_rules(&(4, 3));
    assert_eq!(
        rules,
        vec![
            CornerRule { target: 0, along_row: 1, along_column: 4 },
            CornerRule { target: 8, along_row: 9, along_column: 4 },
            CornerRule { target: 3, along_row: 2, along_column: 7 },
            CornerRule { target: 11, along_row: 10, along_column: 7 },
        ]
    );
}

#[test]
fn corner_rules_on_the_smallest_grid_read_other_corners() {
    let rules = Grid::corner_rules(&(2, 2));
    assert_eq!(
        rules,
        vec![
            CornerRule { target: 0, along_row: 1, along_column: 2 },
            CornerRule { target: 2, along_row: 3, along_column: 0 },
            CornerRule { target: 1, along_row: 0, along_column: 3 },
            CornerRule { target: 3, along_row: 2, along_column: 1 },
        ]
    );
}

#[test]
fn neighbors_of_an_inner_cell() {
    assert_eq!(
        Grid::neighbors(&5, &(4, 4)),
        Some(Neighbors { right: 6, left: 4, down: 9, up: 1 })
    );
    assert_eq!(
        Grid::neighbors(&13, &(5, 4)),
        Some(Neighbors { right: 14, left: 12, down: 18, up: 8 })
    );
}

#[test]
fn neighbors_are_none_on_the_walls_and_beyond() {
    let dim = (4, 4);
    for i in [0usize, 1, 2, 3, 4, 7, 8, 11, 12, 13, 14, 15, 16, 21, usize::MAX] {
        assert_eq!(Grid::neighbors(&i, &dim), None);
    }
    for i in 0..6usize {
        assert_eq!(Grid::neighbors(&i, &(3, 2)), None);
    }
}

#[test]
fn neighbors_count_the_inner_cells() {
    let dim = (6, 5);
    let inner = (0..dim.0 * dim.1).filter(|i| Grid::neighbors(i, &dim).is_some()).count();
    assert_eq!(inner, 4 * 3);
}

#[test]
fn index_buffer_of_one_square() {
    assert_eq!(create_index_buffer((2, 2)), vec![0u16, 1, 2, 1, 3, 2]);
}

#[test]
fn index_buffer_of_two_squares_in_a_row() {
    assert_eq!(create_index_buffer((3, 2)), vec![0u16, 1, 3, 1, 4, 3, 1, 2, 4, 2, 5, 4]);
}

#[test]
fn index_buffer_of_two_squares_in_a_column() {
    assert_eq!(create_index_buffer((2, 3)), vec![0u16, 1, 2, 1, 3, 2, 2, 3, 4, 3, 5, 4]);
}

#[test]
fn index_buffer_of_a_single_row_or_column_is_empty() {
    assert_eq!(create_index_buffer((1, 1)), Vec::<u16>::new());
    assert_eq!(create_index_buffer((5, 1)), Vec::<u16>::new());
    assert_eq!(create_index_buffer((1, 5)), Vec::<u16>::new());
}

#[test]
fn index_buffer_has_six_entries_per_square() {
    let indices = create_index_buffer((100, 50));
    assert_eq!(indices.len(), 6 * 99 * 49);
    assert_eq!(&indices[..6], &[0u16, 1, 100, 1, 101, 100]);
    let last = indices.len() - 6;
    assert_eq!(&indices[last..], &[4898u16, 4899, 4998, 4899, 4999, 4998]);
}

#[test]
fn index_buffer_reaches_the_largest_vertex_number() {
    let indices = create_index_buffer((256, 256));
    assert_eq!(indices.len(), 6 * 255 * 255);
    assert_eq!(indices.iter().copied().max(), Some(u16::MAX));
}
