use asyncritty::{
    is_valid_geometry, same_window_size, to_winsize, update_retained_window_size,
    TerminalDimensions, WindowSize,
};
use std::io;

/// A successful application replaces the retained size, while an error
/// preserves the previously retained size and error kind.
#[test]
fn retained_window_size_follows_application_result() {
    let initial = WindowSize {
        num_lines: 24,
        num_cols: 80,
        cell_width: 8,
        cell_height: 16,
    };
    let replacement = WindowSize {
        num_lines: 30,
        num_cols: 100,
        cell_width: 9,
        cell_height: 18,
    };
    let mut retained = initial;

    let error = update_retained_window_size(
        &mut retained,
        replacement,
        Err(io::Error::from(io::ErrorKind::PermissionDenied)),
    )
    .unwrap_err();
    assert_eq!(error.kind(), io::ErrorKind::PermissionDenied);
    assert_eq!(
        (
            retained.num_lines,
            retained.num_cols,
            retained.cell_width,
            retained.cell_height,
        ),
        (
            initial.num_lines,
            initial.num_cols,
            initial.cell_width,
            initial.cell_height,
        )
    );

    update_retained_window_size(&mut retained, replacement, Ok(())).unwrap();
    assert_eq!(
        (
            retained.num_lines,
            retained.num_cols,
            retained.cell_width,
            retained.cell_height,
        ),
        (
            replacement.num_lines,
            replacement.num_cols,
            replacement.cell_width,
            replacement.cell_height,
        )
    );
}

/// Pixel extents saturate while row and column counts remain unchanged.
#[test]
fn pixel_dimension_saturation() {
    let winsize = to_winsize(WindowSize {
        num_lines: 100,
        num_cols: u16::MAX,
        cell_width: 2,
        cell_height: u16::MAX,
    });

    assert_eq!(winsize.ws_row, 100);
    assert_eq!(winsize.ws_col, u16::MAX);
    assert_eq!(winsize.ws_xpixel, u16::MAX);
    assert_eq!(winsize.ws_ypixel, u16::MAX);
}

/// Without overflow, row and column counts are copied unchanged and pixel
/// extents equal their exact cell products.
#[test]
fn pixel_dimension_products() {
    let winsize = to_winsize(WindowSize {
        num_lines: 24,
        num_cols: 80,
        cell_width: 8,
        cell_height: 16,
    });

    assert_eq!(winsize.ws_row, 24);
    assert_eq!(winsize.ws_col, 80);
    assert_eq!(winsize.ws_xpixel, 640);
    assert_eq!(winsize.ws_ypixel, 384);
}

#[test]
fn pixel_extent_at_exact_limit_does_not_saturate() {
    // 255 * 257 == 65535 == u16::MAX exactly.
    let winsize = to_winsize(WindowSize {
        num_lines: 257,
        num_cols: 255,
        cell_width: 257,
        cell_height: 255,
    });
    assert_eq!(winsize.ws_xpixel, 65535);
    assert_eq!(winsize.ws_ypixel, 65535);

    // One more pixel per cell overflows and saturates.
    let winsize = to_winsize(WindowSize {
        num_lines: 257,
        num_cols: 256,
        cell_width: 256,
        cell_height: 256,
    });
    assert_eq!(winsize.ws_xpixel, u16::MAX);
    assert_eq!(winsize.ws_ypixel, u16::MAX);
}

#[test]
fn zero_cell_size_gives_zero_pixels() {
    let winsize = to_winsize(WindowSize {
        num_lines: 5,
        num_cols: 10,
        cell_width: 0,
        cell_height: 0,
    });
    assert_eq!((winsize.ws_row, winsize.ws_col, winsize.ws_xpixel, winsize.ws_ypixel), (5, 10, 0, 0));
}

fn grid(num_lines: u16, num_cols: u16) -> WindowSize {
    WindowSize {
        num_lines,
        num_cols,
        cell_width: 0,
        cell_height: 0,
    }
}

#[test]
fn geometry_needs_one_line_and_two_columns() {
    assert!(is_valid_geometry(grid(1, 2)));
    assert!(is_valid_geometry(grid(24, 80)));
    assert!(!is_valid_geometry(grid(0, 2)));
    assert!(!is_valid_geometry(grid(1, 1)));
    assert!(!is_valid_geometry(grid(0, 0)));
}

#[test]
fn terminal_dimensions_follow_window_size() {
    let dimensions = TerminalDimensions::from_window_size(grid(1, 2));
    assert_eq!((dimensions.screen_lines(), dimensions.columns()), (1, 2));
    assert_eq!(dimensions.total_lines(), 1);
    assert!(dimensions.is_valid());

    assert!(!TerminalDimensions::from_window_size(grid(0, 2)).is_valid());
    assert!(!TerminalDimensions::from_window_size(grid(1, 1)).is_valid());
    let large = TerminalDimensions::from_window_size(grid(u16::MAX, u16::MAX));
    assert_eq!((large.screen_lines, large.columns), (65535, 65535));
}

#[test]
fn window_sizes_compare_every_field() {
    let base = WindowSize {
        num_lines: 24,
        num_cols: 80,
        cell_width: 8,
        cell_height: 16,
    };
    assert!(same_window_size(base, base));
    assert!(!same_window_size(base, WindowSize { cell_width: 9, ..base }));
    assert!(!same_window_size(base, WindowSize { cell_height: 17, ..base }));
    assert!(!same_window_size(base, WindowSize { num_lines: 25, ..base }));
    assert!(!same_window_size(base, WindowSize { num_cols: 81, ..base }));
}

