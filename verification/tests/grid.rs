use sprite_sheet::animation::AnimationState;
use sprite_sheet::grid::{Grid, GridError, Rect};

fn at(column: u32, row: u32) -> AnimationState {
    AnimationState { current_tile: (column, row), current_index: 0, accum_time: 0 }
}

#[test]
fn grid_keeps_its_configuration() {
    let grid = Grid::new((75, 120), (8, 2));
    assert_eq!(grid.tile_size(), (75, 120));
    assert_eq!(grid.tile_count(), (8, 2));
}

#[test]
fn first_tile_starts_at_the_origin() {
    let grid = Grid::new((75, 120), (8, 2));
    assert_eq!(grid.get_keyframe_rect(&at(0, 0)), Ok(Rect { x: 0, y: 0, w: 75, h: 120 }));
}

#[test]
fn rect_is_tile_size_times_index() {
    let grid = Grid::new((75, 120), (8, 2));
    assert_eq!(grid.get_keyframe_rect(&at(1, 0)), Ok(Rect { x: 75, y: 0, w: 75, h: 120 }));
    assert_eq!(grid.get_keyframe_rect(&at(0, 1)), Ok(Rect { x: 0, y: 120, w: 75, h: 120 }));
    assert_eq!(grid.get_keyframe_rect(&at(3, 1)), Ok(Rect { x: 225, y: 120, w: 75, h: 120 }));
    assert_eq!(grid.get_keyframe_rect(&at(7, 1)), Ok(Rect { x: 525, y: 120, w: 75, h: 120 }));
}

#[test]
fn every_tile_inside_the_grid_resolves() {
    let grid = Grid::new((16, 24), (5, 3));
    for column in 0..5u32 {
        for row in 0..3u32 {
            let expected = Rect { x: 16 * column as u64, y: 24 * row as u64, w: 16, h: 24 };
            assert_eq!(grid.get_keyframe_rect(&at(column, row)), Ok(expected));
        }
    }
}

#[test]
fn rect_only_reads_the_tile_of_the_state() {
    let grid = Grid::new((75, 120), (8, 2));
    let state = AnimationState { current_tile: (2, 1), current_index: 999, accum_time: 12345 };
    assert_eq!(grid.get_keyframe_rect(&state), Ok(Rect { x: 150, y: 120, w: 75, h: 120 }));
}

#[test]
fn column_at_the_bound_is_out_of_range() {
    let grid = Grid::new((75, 120), (8, 2));
    assert_eq!(grid.get_keyframe_rect(&at(8, 0)), Err(GridError));
}

#[test]
fn row_at_the_bound_is_out_of_range() {
    let grid = Grid::new((75, 120), (8, 2));
    assert_eq!(grid.get_keyframe_rect(&at(0, 2)), Err(GridError));
}

#[test]
fn both_indices_beyond_the_bound_are_out_of_range() {
    let grid = Grid::new((75, 120), (8, 2));
    assert_eq!(grid.get_keyframe_rect(&at(8, 2)), Err(GridError));
    assert_eq!(grid.get_keyframe_rect(&at(u32::MAX, u32::MAX)), Err(GridError));
}

#[test]
fn grid_without_tiles_holds_no_tile() {
    let no_columns = Grid::new((75, 120), (0, 2));
    assert_eq!(no_columns.get_keyframe_rect(&at(0, 0)), Err(GridError));
    let no_rows = Grid::new((75, 120), (8, 0));
    assert_eq!(no_rows.get_keyframe_rect(&at(0, 0)), Err(GridError));
}

#[test]
fn largest_tiles_do_not_overflow() {
    let grid = Grid::new((u32::MAX, u32::MAX), (u32::MAX, u32::MAX));
    let last = u32::MAX - 1;
    let expected = Rect {
        x: 4294967295u64 * 4294967294u64,
        y: 4294967295u64 * 4294967294u64,
        w: 4294967295,
        h: 4294967295,
    };
    assert_eq!(expected.x, 18446744060824649730);
    assert_eq!(grid.get_keyframe_rect(&at(last, last)), Ok(expected));
}

#[test]
fn tiles_of_no_size_resolve_to_empty_rects() {
    let grid = Grid::new((0, 0), (4, 4));
    assert_eq!(grid.get_keyframe_rect(&at(3, 3)), Ok(Rect { x: 0, y: 0, w: 0, h: 0 }));
}

#[test]
fn resolving_twice_gives_the_same_rect() {
    let grid = Grid::new((75, 120), (8, 2));
    let state = at(5, 1);
    let first = grid.get_keyframe_rect(&state);
    let second = grid.get_keyframe_rect(&state);
    assert_eq!(first, second);
    assert_eq!(first, Ok(Rect { x: 375, y: 120, w: 75, h: 120 }));
}
