//! The grid that cuts a texture atlas into equal tiles.

use crate::animation::AnimationState;
use crate::animation::Tile;
use vstd::prelude::*;

verus! {

/// The mathematical value of a [`Grid`]: the pixel size of one tile and the
/// number of tiles in each direction.
pub struct GridView {
    pub tile_width: nat,
    pub tile_height: nat,
    pub columns: nat,
    pub rows: nat,
}

/// The mathematical value of a [`Rect`]: left edge, top edge, width, height.
pub struct RectView {
    pub x: nat,
    pub y: nat,
    pub w: nat,
    pub h: nat,
}

impl GridView {
    /// Whether `tile` lies inside the grid.
    pub open spec fn contains(self, tile: Tile) -> bool {
        tile.0 < self.columns && tile.1 < self.rows
    }

    /// The pixels of `tile`, in the atlas's own coordinates.
    pub open spec fn rect_of(self, tile: Tile) -> RectView {
        RectView {
            x: self.tile_width * tile.0 as nat,
            y: self.tile_height * tile.1 as nat,
            w: self.tile_width,
            h: self.tile_height,
        }
    }
}

/// A rectangle of pixels in the atlas.
#[derive(Clone, Copy, Debug, PartialEq, Eq)]
pub struct Rect {
    pub x: u64,
    pub y: u64,
    pub w: u64,
    pub h: u64,
}

impl View for Rect {
    type V = RectView;

    open spec fn view(&self) -> RectView {
        RectView { x: self.x as nat, y: self.y as nat, w: self.w as nat, h: self.h as nat }
    }
}

/// The tile asked for lies outside the grid.
#[derive(Clone, Copy, Debug, PartialEq, Eq)]
pub struct GridError;

/// Divides a texture atlas into tiles of one size, each a full keyframe.
#[derive(Clone, Copy, Debug, PartialEq, Eq)]
pub struct Grid {
    tile_size: (u32, u32),
    tile_count: (u32, u32),
}

impl View for Grid {
    type V = GridView;

    closed spec fn view(&self) -> GridView {
        GridView {
            tile_width: self.tile_size.0 as nat,
            tile_height: self.tile_size.1 as nat,
            columns: self.tile_count.0 as nat,
            rows: self.tile_count.1 as nat,
        }
    }
}

impl Grid {
    /// The grid of `tile_count` (columns, rows) tiles, each `tile_size`
    /// (width, height) pixels.
    pub fn new(tile_size: (u32, u32), tile_count: (u32, u32)) -> (grid: Grid)
        ensures
            grid@.tile_width == tile_size.0,
            grid@.tile_height == tile_size.1,
            grid@.columns == tile_count.0,
            grid@.rows == tile_count.1,
    {
        Grid { tile_size: tile_size, tile_count: tile_count }
    }

    /// The (width, height) of one tile in pixels.
    pub fn tile_size(&self) -> (size: (u32, u32))
        ensures
            size.0 == self@.tile_width,
            size.1 == self@.tile_height,
    {
        self.tile_size
    }

    /// The number of (columns, rows) of the grid.
    pub fn tile_count(&self) -> (count: (u32, u32))
        ensures
            count.0 == self@.columns,
            count.1 == self@.rows,
    {
        self.tile_count
    }

    /// The rectangle of the atlas that holds the keyframe `state` shows, or
    /// the error where that tile lies outside the grid.
    pub fn get_keyframe_rect(&self, state: &AnimationState) -> (found: Result<Rect, GridError>)
        ensures
            match found {
                Ok(rect) => self@.contains(state@.tile) && rect@ == self@.rect_of(state@.tile),
                Err(_) => !self@.contains(state@.tile),
            },
    {
        let (i, j) = state.current_tile;
        let (max_i, max_j) = self.tile_count;
        if max_i <= i {
            return Err(GridError);
        }
        if max_j <= j {
            return Err(GridError);
        }
        let (width, height) = self.tile_size;
        assert(width * i <= u64::MAX && height * j <= u64::MAX) by (nonlinear_arith)
            requires
                width <= u32::MAX,
                height <= u32::MAX,
                i <= u32::MAX,
                j <= u32::MAX,
        ;
        Ok(
            Rect {
                x: width as u64 * i as u64,
                y: height as u64 * j as u64,
                w: width as u64,
                h: height as u64,
            },
        )
    }
}

} // verus!
