//! Terminal geometry, its kernel representation, and the retained PTY size.

use vstd::prelude::*;

verus! {

/// Terminal geometry: the character grid and the pixel size of one cell.
#[derive(Clone, Copy, Debug, PartialEq, Eq, Structural)]
pub struct WindowSize {
    /// Number of visible lines.
    pub num_lines: u16,
    /// Number of cells in each line.
    pub num_cols: u16,
    /// Width of one cell in pixels.
    pub cell_width: u16,
    /// Height of one cell in pixels.
    pub cell_height: u16,
}

/// Kernel representation of a terminal's size (`struct winsize`).
#[derive(Clone, Copy, Debug, PartialEq, Eq, Structural)]
pub struct Winsize {
    /// Rows of characters.
    pub ws_row: u16,
    /// Columns of characters.
    pub ws_col: u16,
    /// Horizontal extent in pixels.
    pub ws_xpixel: u16,
    /// Vertical extent in pixels.
    pub ws_ypixel: u16,
}

/// A geometry that the terminal model accepts: at least one line and at least
/// two columns.
pub open spec fn valid_geometry(size: WindowSize) -> bool {
    size.num_lines > 0 && size.num_cols >= 2
}

/// The product of two extents, saturating at `u16::MAX`.
pub open spec fn saturating_product(a: u16, b: u16) -> u16 {
    if a * b > u16::MAX {
        u16::MAX
    } else {
        (a * b) as u16
    }
}

/// The kernel size of a geometry: rows and columns copied, pixel extents the
/// saturated products of the cell count and the cell size.
pub open spec fn winsize_of(size: WindowSize) -> Winsize {
    Winsize {
        ws_row: size.num_lines,
        ws_col: size.num_cols,
        ws_xpixel: saturating_product(size.num_cols, size.cell_width),
        ws_ypixel: saturating_product(size.num_lines, size.cell_height),
    }
}

/// Whether `size` has at least one line and at least two columns.
pub fn is_valid_geometry(size: WindowSize) -> (valid: bool)
    ensures
        valid == valid_geometry(size),
{
    size.num_lines > 0 && size.num_cols >= 2
}

/// Whether two geometries agree in all four fields.
pub fn same_window_size(a: WindowSize, b: WindowSize) -> (same: bool)
    ensures
        same == (a == b),
{
    a.num_lines == b.num_lines && a.num_cols == b.num_cols && a.cell_width == b.cell_width
        && a.cell_height == b.cell_height
}

fn saturating_mul_u16(a: u16, b: u16) -> (product: u16)
    ensures
        product == saturating_product(a, b),
{
    match a.checked_mul(b) {
        Some(product) => product,
        None => u16::MAX,
    }
}

/// Convert terminal geometry into the kernel representation.
///
/// The horizontal pixel extent is `num_cols` × `cell_width`, and the vertical
/// pixel extent is `num_lines` × `cell_height`; each product saturates at
/// `u16::MAX`.
pub fn to_winsize(window_size: WindowSize) -> (winsize: Winsize)
    ensures
        winsize == winsize_of(window_size),
{
    let ws_row = window_size.num_lines;
    let ws_col = window_size.num_cols;
    let ws_xpixel = saturating_mul_u16(ws_col, window_size.cell_width);
    let ws_ypixel = saturating_mul_u16(ws_row, window_size.cell_height);
    Winsize { ws_row, ws_col, ws_xpixel, ws_ypixel }
}

/// Replace the retained size only after the kernel update succeeds.
///
/// Returns `applied` unchanged. On `Ok`, `retained` becomes `requested`; on an
/// error, `retained` keeps its value.
pub fn update_retained_window_size(
    retained: &mut WindowSize,
    requested: WindowSize,
    applied: Result<(), std::io::Error>,
) -> (result: Result<(), std::io::Error>)
    ensures
        result == applied,
        applied is Ok ==> *final(retained) == requested,
        applied is Err ==> *final(retained) == *old(retained),
{
    if applied.is_ok() {
        *retained = requested;
    }
    applied
}

/// Terminal-model dimensions derived from a PTY window size.
#[derive(Clone, Copy, Debug, PartialEq, Eq, Structural)]
pub struct TerminalDimensions {
    /// Number of visible terminal lines.
    pub screen_lines: usize,
    /// Number of cells in each terminal line.
    pub columns: usize,
}

impl TerminalDimensions {
    /// The dimensions of a window size: its lines and columns.
    pub fn from_window_size(window_size: WindowSize) -> (dimensions: Self)
        ensures
            dimensions.screen_lines == window_size.num_lines as usize,
            dimensions.columns == window_size.num_cols as usize,
    {
        TerminalDimensions {
            screen_lines: window_size.num_lines as usize,
            columns: window_size.num_cols as usize,
        }
    }

    /// Total lines, which without scrollback equal the screen lines.
    pub fn total_lines(&self) -> (lines: usize)
        ensures
            lines == self.screen_lines,
    {
        self.screen_lines
    }

    /// Number of visible lines.
    pub fn screen_lines(&self) -> (lines: usize)
        ensures
            lines == self.screen_lines,
    {
        self.screen_lines
    }

    /// Number of cells in each line.
    pub fn columns(&self) -> (columns: usize)
        ensures
            columns == self.columns,
    {
        self.columns
    }

    /// Whether the dimensions have at least one line and two columns.
    pub fn is_valid(&self) -> (valid: bool)
        ensures
            valid == (self.screen_lines > 0 && self.columns >= 2),
    {
        self.screen_lines > 0 && self.columns >= 2
    }
}

/// A geometry is valid exactly when it has at least one line and at least
/// two columns; no other field and no upper bound matters.
pub proof fn law_valid_geometry_is_one_line_two_columns(size: WindowSize)
    ensures
        valid_geometry(size) <==> (size.num_lines >= 1 && size.num_cols >= 2),
{
}

/// Each pixel extent of the kernel size is the exact product of the cell
/// count and the cell size whenever that product fits in 16 bits, and is
/// `u16::MAX` only when the product exceeds 65535; rows and columns are
/// copied.
pub proof fn law_kernel_size_is_exact_until_saturation(size: WindowSize)
    ensures
        winsize_of(size).ws_row == size.num_lines,
        winsize_of(size).ws_col == size.num_cols,
        size.num_cols * size.cell_width <= 65535 ==> winsize_of(size).ws_xpixel as int
            == size.num_cols * size.cell_width,
        size.num_cols * size.cell_width > 65535 ==> winsize_of(size).ws_xpixel == 65535,
        size.num_lines * size.cell_height <= 65535 ==> winsize_of(size).ws_ypixel as int
            == size.num_lines * size.cell_height,
        size.num_lines * size.cell_height > 65535 ==> winsize_of(size).ws_ypixel == 65535,
{
}

} // verus!
