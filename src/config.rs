use vstd::prelude::*;

verus! {

/// User settings: the grid's shape and the overlay's look.
#[derive(Debug, Clone, Copy)]
pub struct Config {
    pub grid: GridConfig,
    pub appearance: AppearanceConfig,
}

/// How many columns and rows the usable area is divided into, and the gap
/// between tiles in pixels.
#[derive(Debug, Clone, Copy)]
pub struct GridConfig {
    pub cols: u32,
    pub rows: u32,
    pub gap: i32,
}

/// Overlay colours, as 0x00BBGGRR values, and its opacity.
#[derive(Debug, Clone, Copy)]
pub struct AppearanceConfig {
    pub tile_color: u32,
    pub highlight_color: u32,
    pub background_color: u32,
    pub text_color: u32,
    pub alpha: u8,
}

/// `x` moved into `[lo, hi]`.
pub open spec fn clamped(x: int, lo: int, hi: int) -> int {
    if x < lo {
        lo
    } else if x > hi {
        hi
    } else {
        x
    }
}

fn clamp_u32(x: u32, lo: u32, hi: u32) -> (r: u32)
    requires
        lo <= hi,
    ensures
        r == clamped(x as int, lo as int, hi as int),
{
    if x < lo {
        lo
    } else if x > hi {
        hi
    } else {
        x
    }
}

fn clamp_i32(x: i32, lo: i32, hi: i32) -> (r: i32)
    requires
        lo <= hi,
    ensures
        r == clamped(x as int, lo as int, hi as int),
{
    if x < lo {
        lo
    } else if x > hi {
        hi
    } else {
        x
    }
}

impl GridConfig {
    /// Columns in 1..=8, rows in 1..=4, gap in 0..=50.
    pub open spec fn valid(self) -> bool {
        &&& 1 <= self.cols <= 8
        &&& 1 <= self.rows <= 4
        &&& 0 <= self.gap <= 50
    }
}

impl Default for GridConfig {
    fn default() -> (r: GridConfig)
        ensures
            r.cols == 4,
            r.rows == 2,
            r.gap == 10,
    {
        GridConfig { cols: 4, rows: 2, gap: 10 }
    }
}

impl Default for AppearanceConfig {
    fn default() -> (r: AppearanceConfig)
        ensures
            r.tile_color == 0x00805030,
            r.highlight_color == 0x0000A0FF,
            r.background_color == 0x00302020,
            r.text_color == 0x00FFFFFF,
            r.alpha == 220,
    {
        AppearanceConfig {
            tile_color: 0x00805030,
            highlight_color: 0x0000A0FF,
            background_color: 0x00302020,
            text_color: 0x00FFFFFF,
            alpha: 220,
        }
    }
}

impl Default for Config {
    fn default() -> (r: Config)
        ensures
            r.grid.cols == 4,
            r.grid.rows == 2,
            r.grid.gap == 10,
            r.appearance.tile_color == 0x00805030,
            r.appearance.highlight_color == 0x0000A0FF,
            r.appearance.background_color == 0x00302020,
            r.appearance.text_color == 0x00FFFFFF,
            r.appearance.alpha == 220,
    {
        Config { grid: GridConfig::default(), appearance: AppearanceConfig::default() }
    }
}

impl Config {
    /// Brings each grid setting into its range: columns 1..=8, rows 1..=4,
    /// gap 0..=50. The appearance is kept.
    pub fn validate(&mut self)
        ensures
            final(self).grid.cols == clamped(old(self).grid.cols as int, 1, 8),
            final(self).grid.rows == clamped(old(self).grid.rows as int, 1, 4),
            final(self).grid.gap == clamped(old(self).grid.gap as int, 0, 50),
            final(self).grid.valid(),
            final(self).appearance == old(self).appearance,
    {
        self.grid.cols = clamp_u32(self.grid.cols, 1, 8);
        self.grid.rows = clamp_u32(self.grid.rows, 1, 4);
        self.grid.gap = clamp_i32(self.grid.gap, 0, 50);
    }
}

} // verus!
