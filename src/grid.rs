use vstd::arithmetic::div_mod::{lemma_div_pos_is_pos, lemma_fundamental_div_mod, lemma_remainder};
use vstd::arithmetic::mul::lemma_mul_inequality;
use vstd::prelude::*;

verus! {

/// An axis-aligned rectangle in screen coordinates.
#[derive(Debug, Clone, Copy, PartialEq, Eq, Structural)]
pub struct Rect {
    pub left: i32,
    pub top: i32,
    pub right: i32,
    pub bottom: i32,
}

/// A cell of the grid, addressed by column and row.
#[derive(Debug, Clone, Copy, PartialEq, Eq, Structural)]
pub struct TilePos {
    pub col: u32,
    pub row: u32,
}

/// ASCII upper-casing: `a`..`z` become `A`..`Z`, every other character is kept.
pub open spec fn ascii_upper(c: char) -> char {
    if 'a' <= c && c <= 'z' {
        ((c as u32) - 32) as char
    } else {
        c
    }
}

/// The physical key layout: the keyboard row and column of each label key.
/// Keyboard row 0 is the digit row, rows 1 to 3 are the three letter rows.
pub open spec fn key_cell(c: char) -> Option<(u32, u32)> {
    match c {
        '1' => Some((0, 0)),
        '2' => Some((0, 1)),
        '3' => Some((0, 2)),
        '4' => Some((0, 3)),
        '5' => Some((0, 4)),
        '6' => Some((0, 5)),
        '7' => Some((0, 6)),
        '8' => Some((0, 7)),
        'Q' => Some((1, 0)),
        'W' => Some((1, 1)),
        'E' => Some((1, 2)),
        'R' => Some((1, 3)),
        'T' => Some((1, 4)),
        'Y' => Some((1, 5)),
        'U' => Some((1, 6)),
        'I' => Some((1, 7)),
        'A' => Some((2, 0)),
        'S' => Some((2, 1)),
        'D' => Some((2, 2)),
        'F' => Some((2, 3)),
        'G' => Some((2, 4)),
        'H' => Some((2, 5)),
        'J' => Some((2, 6)),
        'K' => Some((2, 7)),
        'Z' => Some((3, 0)),
        'X' => Some((3, 1)),
        'C' => Some((3, 2)),
        'V' => Some((3, 3)),
        'B' => Some((3, 4)),
        'N' => Some((3, 5)),
        'M' => Some((3, 6)),
        ',' => Some((3, 7)),
        _ => None,
    }
}

/// The label key at a keyboard row and column of the layout.
pub open spec fn label_at(keyboard_row: u32, col: u32) -> char {
    match (keyboard_row, col) {
        (0, 0) => '1',
        (0, 1) => '2',
        (0, 2) => '3',
        (0, 3) => '4',
        (0, 4) => '5',
        (0, 5) => '6',
        (0, 6) => '7',
        (0, 7) => '8',
        (1, 0) => 'Q',
        (1, 1) => 'W',
        (1, 2) => 'E',
        (1, 3) => 'R',
        (1, 4) => 'T',
        (1, 5) => 'Y',
        (1, 6) => 'U',
        (1, 7) => 'I',
        (2, 0) => 'A',
        (2, 1) => 'S',
        (2, 2) => 'D',
        (2, 3) => 'F',
        (2, 4) => 'G',
        (2, 5) => 'H',
        (2, 6) => 'J',
        (2, 7) => 'K',
        (3, 0) => 'Z',
        (3, 1) => 'X',
        (3, 2) => 'C',
        (3, 3) => 'V',
        (3, 4) => 'B',
        (3, 5) => 'N',
        (3, 6) => 'M',
        (3, 7) => ',',
        _ => ' ',
    }
}

/// Upper-cases an ASCII letter and leaves every other character as it is.
pub fn to_upper(c: char) -> (r: char)
    ensures
        r == ascii_upper(c),
{
    if 'a' <= c && c <= 'z' {
        let b: u8 = c as u8;
        (b - 32) as char
    } else {
        c
    }
}

/// Looks a character up in the key layout.
pub fn keyboard_cell(c: char) -> (r: Option<(u32, u32)>)
    ensures
        r == key_cell(c),
{
    match c {
        '1' => Some((0, 0)),
        '2' => Some((0, 1)),
        '3' => Some((0, 2)),
        '4' => Some((0, 3)),
        '5' => Some((0, 4)),
        '6' => Some((0, 5)),
        '7' => Some((0, 6)),
        '8' => Some((0, 7)),
        'Q' => Some((1, 0)),
        'W' => Some((1, 1)),
        'E' => Some((1, 2)),
        'R' => Some((1, 3)),
        'T' => Some((1, 4)),
        'Y' => Some((1, 5)),
        'U' => Some((1, 6)),
        'I' => Some((1, 7)),
        'A' => Some((2, 0)),
        'S' => Some((2, 1)),
        'D' => Some((2, 2)),
        'F' => Some((2, 3)),
        'G' => Some((2, 4)),
        'H' => Some((2, 5)),
        'J' => Some((2, 6)),
        'K' => Some((2, 7)),
        'Z' => Some((3, 0)),
        'X' => Some((3, 1)),
        'C' => Some((3, 2)),
        'V' => Some((3, 3)),
        'B' => Some((3, 4)),
        'N' => Some((3, 5)),
        'M' => Some((3, 6)),
        ',' => Some((3, 7)),
        _ => None,
    }
}

/// The label key at a keyboard row and column.
pub fn keyboard_label(keyboard_row: u32, col: u32) -> (c: char)
    requires
        keyboard_row < 4,
        col < 8,
    ensures
        c == label_at(keyboard_row, col),
{
    match (keyboard_row, col) {
        (0, 0) => '1',
        (0, 1) => '2',
        (0, 2) => '3',
        (0, 3) => '4',
        (0, 4) => '5',
        (0, 5) => '6',
        (0, 6) => '7',
        (0, 7) => '8',
        (1, 0) => 'Q',
        (1, 1) => 'W',
        (1, 2) => 'E',
        (1, 3) => 'R',
        (1, 4) => 'T',
        (1, 5) => 'Y',
        (1, 6) => 'U',
        (1, 7) => 'I',
        (2, 0) => 'A',
        (2, 1) => 'S',
        (2, 2) => 'D',
        (2, 3) => 'F',
        (2, 4) => 'G',
        (2, 5) => 'H',
        (2, 6) => 'J',
        (2, 7) => 'K',
        (3, 0) => 'Z',
        (3, 1) => 'X',
        (3, 2) => 'C',
        (3, 3) => 'V',
        (3, 4) => 'B',
        (3, 5) => 'N',
        (3, 6) => 'M',
        (3, 7) => ',',
        _ => ' ',
    }
}

/// The largest distance from the origin that a usable area's edges may have.
/// It keeps every tile computation inside `i32`.
pub const COORD_LIMIT: i32 = 500_000_000;

/// `a / b` rounded toward zero, as integer division does, for `b > 0`.
pub open spec fn trunc_div(a: int, b: int) -> int {
    if a >= 0 {
        a / b
    } else {
        -((-a) / b)
    }
}

/// A monitor's usable area divided into `cols` x `rows` tiles, separated and
/// bordered by `gap` pixels.
#[derive(Debug, Clone, Copy, PartialEq, Eq, Structural)]
pub struct Grid {
    pub cols: u32,
    pub rows: u32,
    pub gap: i32,
    pub work_area: Rect,
}

/// The smallest rectangle that covers both.
pub open spec fn bounding_rect(a: Rect, b: Rect) -> Rect {
    Rect {
        left: if a.left <= b.left { a.left } else { b.left },
        top: if a.top <= b.top { a.top } else { b.top },
        right: if a.right >= b.right { a.right } else { b.right },
        bottom: if a.bottom >= b.bottom { a.bottom } else { b.bottom },
    }
}

/// Scaling a quotient rounded toward zero by at most its divisor stays
/// within the dividend's magnitude.
proof fn lemma_scaled_quotient(n: int, d: int, k: int)
    requires
        1 <= d,
        0 <= k <= d,
    ensures
        n >= 0 ==> 0 <= k * trunc_div(n, d) <= n,
        n < 0 ==> n <= k * trunc_div(n, d) <= 0,
{
    let m: int = if n >= 0 { n } else { -n };
    let q = m / d;
    lemma_div_pos_is_pos(m, d);
    lemma_fundamental_div_mod(m, d);
    lemma_remainder(m, d);
    lemma_mul_inequality(k, d, q);
    assert(k * q <= d * q);
    assert(0 <= k * q) by (nonlinear_arith)
        requires
            0 <= k,
            0 <= q,
    ;
    if n < 0 {
        assert(k * trunc_div(n, d) == -(k * q)) by (nonlinear_arith)
            requires
                trunc_div(n, d) == -q,
        ;
    }
}

/// Along one axis: the near and far edges of the tile at `index` lie within
/// twice the supported coordinate range, widened by the gaps, of the usable
/// area's near edge.
pub proof fn lemma_span_bounded(lo: i32, hi: i32, gap: i32, count: u32, index: u32)
    requires
        -COORD_LIMIT <= lo <= COORD_LIMIT,
        -COORD_LIMIT <= hi <= COORD_LIMIT,
        0 <= gap <= 50,
        1 <= count <= 8,
        index < count,
    ensures
        ({
            let size = trunc_div(hi - lo - gap * (count + 1), count as int);
            let near = lo + gap + index * (size + gap);
            &&& -2 * COORD_LIMIT - 1000 <= near - lo <= 2 * COORD_LIMIT + 1000
            &&& -2 * COORD_LIMIT - 1000 <= near + size - lo <= 2 * COORD_LIMIT + 1000
        }),
{
    let n = hi - lo - gap * (count + 1);
    assert(0 <= gap * (count + 1) <= 450) by (nonlinear_arith)
        requires
            0 <= gap <= 50,
            1 <= count <= 8,
    ;
    let size = trunc_div(n, count as int);
    lemma_scaled_quotient(n, count as int, index as int);
    lemma_scaled_quotient(n, count as int, index + 1);
    assert(index * (size + gap) == index * size + index * gap) by (nonlinear_arith);
    assert((index + 1) * size == index * size + size) by (nonlinear_arith);
    assert(0 <= index * gap <= 400) by (nonlinear_arith)
        requires
            0 <= gap <= 50,
            index < 8,
    ;
}

impl Rect {
    /// Every edge lies within `COORD_LIMIT` of the origin.
    pub open spec fn in_bounds(self) -> bool {
        &&& -COORD_LIMIT <= self.left <= COORD_LIMIT
        &&& -COORD_LIMIT <= self.top <= COORD_LIMIT
        &&& -COORD_LIMIT <= self.right <= COORD_LIMIT
        &&& -COORD_LIMIT <= self.bottom <= COORD_LIMIT
    }

    /// Whether every edge lies within `COORD_LIMIT` of the origin.
    pub fn is_in_bounds(&self) -> (r: bool)
        ensures
            r == self.in_bounds(),
    {
        -COORD_LIMIT <= self.left && self.left <= COORD_LIMIT && -COORD_LIMIT <= self.top
            && self.top <= COORD_LIMIT && -COORD_LIMIT <= self.right && self.right
            <= COORD_LIMIT && -COORD_LIMIT <= self.bottom && self.bottom <= COORD_LIMIT
    }
}

impl Grid {
    /// Grid dimensions and gap within their configured ranges, and a usable
    /// area within the supported coordinate range.
    pub open spec fn wf(self) -> bool {
        &&& 1 <= self.cols <= 8
        &&& 1 <= self.rows <= 4
        &&& 0 <= self.gap <= 50
        &&& self.work_area.in_bounds()
    }

    /// The tile is one of the grid's cells.
    pub open spec fn contains(self, pos: TilePos) -> bool {
        pos.col < self.cols && pos.row < self.rows
    }

    /// The keyboard row that labels a grid row: a four-row grid starts at the
    /// digit row, a smaller one at the first letter row.
    pub open spec fn keyboard_row(self, row: u32) -> int {
        if self.rows == 4 {
            row as int
        } else {
            row + 1
        }
    }

    /// The tile that a key selects, if any.
    pub open spec fn tile_of_key(self, key: char) -> Option<TilePos> {
        match key_cell(ascii_upper(key)) {
            None => None,
            Some((keyboard_row, col)) => {
                let row: int = if self.rows == 4 {
                    keyboard_row as int
                } else {
                    keyboard_row - 1
                };
                if 0 <= row && row < self.rows && col < self.cols {
                    Some(TilePos { col, row: row as u32 })
                } else {
                    None
                }
            },
        }
    }

    /// The label key of a tile, if the tile is in the grid.
    pub open spec fn key_of_tile(self, pos: TilePos) -> Option<char> {
        if self.contains(pos) {
            Some(label_at(self.keyboard_row(pos.row) as u32, pos.col))
        } else {
            None
        }
    }

    /// Width of every tile: what the gaps leave of the usable width, shared
    /// by the columns, rounded toward zero.
    pub open spec fn tile_width(self) -> int {
        trunc_div(
            self.work_area.right - self.work_area.left - self.gap * (self.cols + 1),
            self.cols as int,
        )
    }

    /// Height of every tile, as `tile_width` for the rows.
    pub open spec fn tile_height(self) -> int {
        trunc_div(
            self.work_area.bottom - self.work_area.top - self.gap * (self.rows + 1),
            self.rows as int,
        )
    }

    /// Left edge of the tiles of a column.
    pub open spec fn tile_left(self, col: u32) -> int {
        self.work_area.left + self.gap + col * (self.tile_width() + self.gap)
    }

    /// Top edge of the tiles of a row.
    pub open spec fn tile_top(self, row: u32) -> int {
        self.work_area.top + self.gap + row * (self.tile_height() + self.gap)
    }

    /// The rectangle of a tile.
    pub open spec fn rect_of_tile(self, pos: TilePos) -> Rect {
        Rect {
            left: self.tile_left(pos.col) as i32,
            top: self.tile_top(pos.row) as i32,
            right: (self.tile_left(pos.col) + self.tile_width()) as i32,
            bottom: (self.tile_top(pos.row) + self.tile_height()) as i32,
        }
    }

    /// The rectangle that spans two tiles.
    pub open spec fn rect_of_tiles(self, a: TilePos, b: TilePos) -> Rect {
        bounding_rect(self.rect_of_tile(a), self.rect_of_tile(b))
    }

    /// The edges of a tile of a well-formed grid fit in `i32`, and lie within
    /// twice the supported coordinate range, widened by the gaps, of the
    /// usable area's top-left corner.
    pub proof fn lemma_tile_edges_fit(self, pos: TilePos)
        requires
            self.wf(),
            self.contains(pos),
        ensures
            i32::MIN <= self.tile_left(pos.col) <= i32::MAX,
            i32::MIN <= self.tile_top(pos.row) <= i32::MAX,
            i32::MIN <= self.tile_left(pos.col) + self.tile_width() <= i32::MAX,
            i32::MIN <= self.tile_top(pos.row) + self.tile_height() <= i32::MAX,
            -2 * COORD_LIMIT - 1000 <= self.tile_left(pos.col) - self.work_area.left
                <= 2 * COORD_LIMIT + 1000,
            -2 * COORD_LIMIT - 1000 <= self.tile_left(pos.col) + self.tile_width()
                - self.work_area.left <= 2 * COORD_LIMIT + 1000,
            -2 * COORD_LIMIT - 1000 <= self.tile_top(pos.row) - self.work_area.top
                <= 2 * COORD_LIMIT + 1000,
            -2 * COORD_LIMIT - 1000 <= self.tile_top(pos.row) + self.tile_height()
                - self.work_area.top <= 2 * COORD_LIMIT + 1000,
    {
        lemma_span_bounded(self.work_area.left, self.work_area.right, self.gap, self.cols, pos.col);
        lemma_span_bounded(self.work_area.top, self.work_area.bottom, self.gap, self.rows, pos.row);
    }

    pub fn new(cols: u32, rows: u32, gap: i32, work_area: Rect) -> (g: Grid)
        requires
            (Grid { cols, rows, gap, work_area }).wf(),
        ensures
            g == (Grid { cols, rows, gap, work_area }),
    {
        Grid { cols, rows, gap, work_area }
    }

    /// Resolves a key, in either case, to the tile it labels in this grid.
    /// Digits label the top row of a four-row grid only; a key whose tile
    /// falls outside the grid resolves to nothing.
    pub fn key_to_tile(&self, key: char) -> (r: Option<TilePos>)
        requires
            self.wf(),
        ensures
            r == self.tile_of_key(key),
    {
        let key = to_upper(key);
        let use_number_row = self.rows == 4;
        let (keyboard_row, col) = match keyboard_cell(key) {
            Some(cell) => cell,
            None => return None,
        };
        let row: u32 = if use_number_row {
            keyboard_row
        } else {
            if keyboard_row == 0 {
                return None;
            }
            keyboard_row - 1
        };
        if col < self.cols && row < self.rows {
            Some(TilePos { col, row })
        } else {
            None
        }
    }

    /// The label key of a tile, or `None` when the tile is outside the grid.
    pub fn tile_to_key(&self, pos: TilePos) -> (r: Option<char>)
        requires
            self.wf(),
        ensures
            r == self.key_of_tile(pos),
    {
        if pos.row >= self.rows || pos.col >= self.cols {
            return None;
        }
        if self.rows == 4 {
            Some(keyboard_label(pos.row, pos.col))
        } else {
            Some(keyboard_label(pos.row + 1, pos.col))
        }
    }
    /// The rectangle of a tile: the usable area's origin, then the border gap,
    /// then one tile and one gap per column (row) before it.
    pub fn tile_rect(&self, pos: TilePos) -> (r: Rect)
        requires
            self.wf(),
            self.contains(pos),
        ensures
            r == self.rect_of_tile(pos),
            r.left == self.tile_left(pos.col),
            r.top == self.tile_top(pos.row),
            r.right == self.tile_left(pos.col) + self.tile_width(),
            r.bottom == self.tile_top(pos.row) + self.tile_height(),
    {
        proof {
            self.lemma_tile_edges_fit(pos);
            assert(0 <= self.gap * (self.cols + 1) <= 450) by (nonlinear_arith)
                requires
                    0 <= self.gap <= 50,
                    1 <= self.cols <= 8,
            ;
            assert(0 <= self.gap * (self.rows + 1) <= 250) by (nonlinear_arith)
                requires
                    0 <= self.gap <= 50,
                    1 <= self.rows <= 4,
            ;
        }
        let work_width: i32 = self.work_area.right - self.work_area.left;
        let work_height: i32 = self.work_area.bottom - self.work_area.top;

        let total_gap_x: i32 = self.gap * (self.cols as i32 + 1);
        let total_gap_y: i32 = self.gap * (self.rows as i32 + 1);

        let tile_width: i32 = (work_width - total_gap_x) / self.cols as i32;
        let tile_height: i32 = (work_height - total_gap_y) / self.rows as i32;

        proof {
            assert(pos.col * (tile_width + self.gap) == pos.col * tile_width + pos.col * self.gap)
                by (nonlinear_arith);
            assert(pos.row * (tile_height + self.gap) == pos.row * tile_height + pos.row
                * self.gap) by (nonlinear_arith);
            assert(0 <= pos.col * self.gap <= 400) by (nonlinear_arith)
                requires
                    0 <= self.gap <= 50,
                    pos.col < 8,
            ;
            assert(0 <= pos.row * self.gap <= 200) by (nonlinear_arith)
                requires
                    0 <= self.gap <= 50,
                    pos.row < 4,
            ;
        }
        let left: i32 = self.work_area.left + self.gap + (pos.col as i32 * (tile_width + self.gap));
        let top: i32 = self.work_area.top + self.gap + (pos.row as i32 * (tile_height + self.gap));

        Rect { left, top, right: left + tile_width, bottom: top + tile_height }
    }

    /// The smallest rectangle that covers both tiles; for one tile twice,
    /// that tile's rectangle.
    pub fn combine_tiles(&self, pos1: TilePos, pos2: TilePos) -> (r: Rect)
        requires
            self.wf(),
            self.contains(pos1),
            self.contains(pos2),
        ensures
            r == self.rect_of_tiles(pos1, pos2),
    {
        let rect1 = self.tile_rect(pos1);
        let rect2 = self.tile_rect(pos2);

        Rect {
            left: rect1.left.min(rect2.left),
            top: rect1.top.min(rect2.top),
            right: rect1.right.max(rect2.right),
            bottom: rect1.bottom.max(rect2.bottom),
        }
    }
}

/// The two layout tables agree: a key's cell is labelled by that key.
pub proof fn lemma_label_of_cell(c: char)
    requires
        key_cell(c) is Some,
    ensures
        ({
            let (keyboard_row, col) = key_cell(c)->0;
            &&& keyboard_row < 4
            &&& col < 8
            &&& label_at(keyboard_row, col) == c
        }),
{
}

/// The two layout tables agree: a cell's label key lies in that cell, and no
/// label is a lower-case letter.
pub proof fn lemma_cell_of_label(keyboard_row: u32, col: u32)
    requires
        keyboard_row < 4,
        col < 8,
    ensures
        key_cell(label_at(keyboard_row, col)) == Some((keyboard_row, col)),
        ascii_upper(label_at(keyboard_row, col)) == label_at(keyboard_row, col),
{
}

/// On a grid of one to three rows, no digit selects a tile, and a key
/// selects a tile exactly when it lies in a letter row whose place below the
/// first letter row is within the rows and whose column is within the columns.
pub proof fn lemma_small_grid_keys(grid: Grid, key: char)
    requires
        grid.wf(),
        grid.rows <= 3,
    ensures
        '0' <= key <= '9' ==> grid.tile_of_key(key) is None,
        grid.tile_of_key(key) is Some <==> (key_cell(ascii_upper(key)) matches Some(
            (keyboard_row, col),
        ) && 1 <= keyboard_row && keyboard_row - 1 < grid.rows && col < grid.cols),
        grid.tile_of_key(key) matches Some(pos) ==> key_cell(ascii_upper(key)) == Some(
            ((pos.row + 1) as u32, pos.col),
        ),
{
}

/// Looking up the label of the tile that a key selects gives back that key,
/// upper-cased.
pub proof fn lemma_key_round_trip(grid: Grid, key: char)
    requires
        grid.wf(),
        grid.tile_of_key(key) is Some,
    ensures
        grid.key_of_tile(grid.tile_of_key(key)->0) == Some(ascii_upper(key)),
{
    lemma_label_of_cell(ascii_upper(key));
}

/// Resolving the label of a tile of the grid selects that tile.
pub proof fn lemma_tile_round_trip(grid: Grid, pos: TilePos)
    requires
        grid.wf(),
        grid.contains(pos),
    ensures
        grid.key_of_tile(pos) matches Some(key) && grid.tile_of_key(key) == Some(pos),
{
    lemma_cell_of_label(grid.keyboard_row(pos.row) as u32, pos.col);
}

/// Combining a tile with itself gives that tile's rectangle.
pub proof fn lemma_combine_same_tile(grid: Grid, pos: TilePos)
    requires
        grid.wf(),
        grid.contains(pos),
    ensures
        grid.rect_of_tiles(pos, pos) == grid.rect_of_tile(pos),
{
}

/// Combining two tiles does not depend on their order.
pub proof fn lemma_combine_symmetric(grid: Grid, a: TilePos, b: TilePos)
    requires
        grid.wf(),
        grid.contains(a),
        grid.contains(b),
    ensures
        grid.rect_of_tiles(a, b) == grid.rect_of_tiles(b, a),
{
}

} // verus!
