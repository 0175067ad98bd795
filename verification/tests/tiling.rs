use geopattern::tiling::{tile, Emission, Place, Wrap};

fn copies(run: &[Emission], x: usize, y: usize) -> usize {
    run.iter().filter(|e| e.x == x && e.y == y).count()
}

#[test]
fn tile_wraps_both_borders() {
    for (width, height) in [(6usize, 6usize), (3, 2), (1, 1), (1, 5), (4, 1)] {
        let run = tile(width, height, Wrap::Both);
        assert_eq!(run.len(), width * height + width + height + 1);
        for y in 0..height {
            for x in 0..width {
                let expected = if x == 0 && y == 0 {
                    4
                } else if x == 0 || y == 0 {
                    2
                } else {
                    1
                };
                assert_eq!(copies(&run, x, y), expected);
            }
        }
    }
}

#[test]
fn tile_wraps_one_border() {
    let rows = tile(6, 6, Wrap::Rows);
    let columns = tile(6, 6, Wrap::Columns);
    assert_eq!(rows.len(), 42);
    assert_eq!(columns.len(), 42);
    for y in 0..6 {
        for x in 0..6 {
            assert_eq!(copies(&rows, x, y), if y == 0 { 2 } else { 1 });
            assert_eq!(copies(&columns, x, y), if x == 0 { 2 } else { 1 });
        }
    }
    assert!(rows.iter().all(|e| e.place == Place::Home || e.place == Place::Below));
    assert!(columns.iter().all(|e| e.place == Place::Home || e.place == Place::Right));
}

#[test]
fn tile_draws_each_cell_once_without_wrap() {
    let run = tile(6, 6, Wrap::Neither);
    assert_eq!(run.len(), 36);
    for (i, e) in run.iter().enumerate() {
        assert_eq!(*e, Emission { x: i % 6, y: i / 6, place: Place::Home });
    }
}

#[test]
fn tile_goes_row_by_row() {
    let run = tile(2, 2, Wrap::Both);
    let expected = vec![
        Emission { x: 0, y: 0, place: Place::Home },
        Emission { x: 0, y: 0, place: Place::Right },
        Emission { x: 0, y: 0, place: Place::Below },
        Emission { x: 0, y: 0, place: Place::Corner },
        Emission { x: 1, y: 0, place: Place::Home },
        Emission { x: 1, y: 0, place: Place::Below },
        Emission { x: 0, y: 1, place: Place::Home },
        Emission { x: 0, y: 1, place: Place::Right },
        Emission { x: 1, y: 1, place: Place::Home },
    ];
    assert_eq!(run, expected);
}

#[test]
fn tile_of_an_empty_grid_is_empty() {
    assert_eq!(tile(0, 5, Wrap::Both), vec![]);
    assert_eq!(tile(5, 0, Wrap::Both), vec![]);
}

#[test]
fn emission_is_drawn_past_the_grid() {
    let e = Emission { x: 0, y: 0, place: Place::Corner };
    assert_eq!((e.col(6), e.row(4)), (6, 4));
    let e = Emission { x: 0, y: 3, place: Place::Right };
    assert_eq!((e.col(6), e.row(4)), (6, 3));
    let e = Emission { x: 2, y: 0, place: Place::Below };
    assert_eq!((e.col(6), e.row(4)), (2, 4));
    let e = Emission { x: 2, y: 3, place: Place::Home };
    assert_eq!((e.col(6), e.row(4)), (2, 3));
}

#[test]
fn tile_has_one_more_row_and_column_where_both_wrap() {
    for (width, height) in [(1usize, 1usize), (1, 4), (5, 1), (6, 6), (7, 3)] {
        assert_eq!(tile(width, height, Wrap::Both).len(), (width + 1) * (height + 1));
        assert_eq!(tile(width, height, Wrap::Rows).len(), width * (height + 1));
        assert_eq!(tile(width, height, Wrap::Columns).len(), (width + 1) * height);
        assert_eq!(tile(width, height, Wrap::Neither).len(), width * height);
    }
}
