use point_index::{
    array_is_addressable, enumerate_iter_arr, enumerate_iter_vec, vec_is_addressable, Point,
};

#[test]
fn vector_grid_is_walked_row_by_row() {
    let grid = vec![vec![0, 1, 2], vec![3, 4, 5], vec![6, 7, 8]];
    let pairs = enumerate_iter_vec(grid);
    assert_eq!(
        pairs,
        vec![
            (Point { x: 0, y: 0 }, 0),
            (Point { x: 1, y: 0 }, 1),
            (Point { x: 2, y: 0 }, 2),
            (Point { x: 0, y: 1 }, 3),
            (Point { x: 1, y: 1 }, 4),
            (Point { x: 2, y: 1 }, 5),
            (Point { x: 0, y: 2 }, 6),
            (Point { x: 1, y: 2 }, 7),
            (Point { x: 2, y: 2 }, 8),
        ]
    );
}

#[test]
fn array_grid_is_walked_row_by_row() {
    let grid = [[10, 11, 12], [20, 21, 22]];
    let pairs = enumerate_iter_arr(grid);
    assert_eq!(
        pairs,
        vec![
            (Point { x: 0, y: 0 }, 10),
            (Point { x: 1, y: 0 }, 11),
            (Point { x: 2, y: 0 }, 12),
            (Point { x: 0, y: 1 }, 20),
            (Point { x: 1, y: 1 }, 21),
            (Point { x: 2, y: 1 }, 22),
        ]
    );
}

#[test]
fn ragged_rows_are_walked_in_full() {
    let grid = vec![vec!['a'], vec![], vec!['b', 'c', 'd']];
    let pairs = enumerate_iter_vec(grid);
    assert_eq!(
        pairs,
        vec![
            (Point { x: 0, y: 0 }, 'a'),
            (Point { x: 0, y: 2 }, 'b'),
            (Point { x: 1, y: 2 }, 'c'),
            (Point { x: 2, y: 2 }, 'd'),
        ]
    );
}

#[test]
fn traversal_moves_the_cells_out() {
    let grid = vec![vec![String::from("x"), String::from("y")], vec![String::from("z")]];
    let mut joined = String::new();
    for (point, cell) in enumerate_iter_vec(grid) {
        joined.push_str(&format!("{}{}{};", point.x, point.y, cell));
    }
    assert_eq!(joined, "00x;10y;01z;");
}

#[test]
fn empty_grids_give_no_pairs() {
    let none: Vec<Vec<u8>> = Vec::new();
    assert!(enumerate_iter_vec(none).is_empty());
    let rows_only: Vec<Vec<u8>> = vec![Vec::new(), Vec::new()];
    assert!(enumerate_iter_vec(rows_only).is_empty());
    let flat: [[u8; 0]; 3] = [[], [], []];
    assert!(enumerate_iter_arr(flat).is_empty());
}

#[test]
fn ordinary_grids_are_addressable() {
    assert!(vec_is_addressable(&vec![vec![0, 1, 2], vec![3]]));
    assert!(vec_is_addressable(&Vec::<Vec<u8>>::new()));
    assert!(array_is_addressable(&[[0u8; 4]; 2]));
    assert!(array_is_addressable(&[[0u8; 0]; 2]));
}

#[test]
fn rows_longer_than_the_coordinate_range_are_not_addressable() {
    let limit = (isize::MAX as usize) + 1;
    let widest: Vec<()> = Vec::from([(); (isize::MAX as usize) + 1]);
    assert_eq!(widest.len(), limit);
    assert!(vec_is_addressable(&vec![widest]));
    let too_wide: Vec<()> = Vec::from([(); usize::MAX]);
    assert!(!vec_is_addressable(&vec![Vec::new(), too_wide]));
    assert!(array_is_addressable(&[[(); (isize::MAX as usize) + 1]; 1]));
    assert!(!array_is_addressable(&[[(); usize::MAX]; 1]));
    assert!(!array_is_addressable(&[[(); 0]; usize::MAX]));
    assert!(array_is_addressable(&[[(); usize::MAX]; 0]));
}
