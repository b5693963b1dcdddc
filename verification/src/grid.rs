//! Border junction characters for drawing the map grid.
//!
//! A map is rendered as a grid of cells; where the borders of neighbouring
//! cells meet, the junction character depends on whether the cell sits on an
//! edge or a corner of the map.

use vstd::prelude::*;

verus! {

/// The four junction characters drawn at the corners of one cell of the map
/// grid, in order: top left, top right, bottom left, bottom right.
pub struct CellCorner(pub char, pub char, pub char, pub char);

/// Junction drawn at the top-left corner of the cell at grid position `(x, y)`.
pub open spec fn top_left_corner(x: u16, y: u16) -> char {
    if x == 0 && y == 0 {
        '╔'
    } else if x == 0 {
        '╠'
    } else if y == 0 {
        '╦'
    } else {
        '╬'
    }
}

/// Junction drawn at the top-right corner, where `max_x` is the last column.
pub open spec fn top_right_corner(x: u16, y: u16, max_x: u16) -> char {
    if x == max_x {
        if y == 0 {
            '╗'
        } else {
            '╣'
        }
    } else if y == 0 {
        '╦'
    } else {
        '╬'
    }
}

/// Junction drawn at the bottom-left corner, where `max_y` is the last row.
pub open spec fn bottom_left_corner(x: u16, y: u16, max_y: u16) -> char {
    if x == 0 {
        if y == max_y {
            '╚'
        } else {
            '╠'
        }
    } else if y == max_y {
        '╩'
    } else {
        '╬'
    }
}

/// Junction drawn at the bottom-right corner.
pub open spec fn bottom_right_corner(x: u16, y: u16, max_x: u16, max_y: u16) -> char {
    if x == max_x {
        if y == max_y {
            '╝'
        } else {
            '╣'
        }
    } else if y == max_y {
        '╩'
    } else {
        '╬'
    }
}

impl CellCorner {
    /// The four junction characters for the cell at `(x, y)` of a map of
    /// `width` columns and `height` rows.
    pub fn from_map_size(x: u16, y: u16, width: usize, height: usize) -> (r: CellCorner)
        requires
            0 < width <= u16::MAX,
            0 < height <= u16::MAX,
        ensures
            r.0 == top_left_corner(x, y),
            r.1 == top_right_corner(x, y, (width - 1) as u16),
            r.2 == bottom_left_corner(x, y, (height - 1) as u16),
            r.3 == bottom_right_corner(x, y, (width - 1) as u16, (height - 1) as u16),
    {
        let max_x = width as u16 - 1;
        let max_y = height as u16 - 1;

        let tl = match (x, y) {
            (0, 0) => '╔',
            (0, _) => '╠',
            (_, 0) => '╦',
            (_, _) => '╬',
        };

        let tr = if x == max_x {
            if y == 0 {
                '╗'
            } else {
                '╣'
            }
        } else if y == 0 {
            '╦'
        } else {
            '╬'
        };

        let bl = if x == 0 {
            if y == max_y {
                '╚'
            } else {
                '╠'
            }
        } else if y == max_y {
            '╩'
        } else {
            '╬'
        };

        let br = if x == max_x {
            if y == max_y {
                '╝'
            } else {
                '╣'
            }
        } else if y == max_y {
            '╩'
        } else {
            '╬'
        };

        CellCorner(tl, tr, bl, br)
    }
}

} // verus!
