use ferrosonic::layout::{cava_height, clicked_row, progress_bar_offset, seek_bar_offset};

#[test]
fn clicked_rows() {
    assert_eq!(clicked_row(5, 2, 0), 2);
    assert_eq!(clicked_row(5, 2, 10), 12);
    assert_eq!(clicked_row(2, 2, 4), 4);
    assert_eq!(clicked_row(3, 2, 4), 4);
}

#[test]
fn seek_bar_geometry() {
    // Box at column 0, 40 wide: inner columns 1..39, bar from inner column 17.
    assert_eq!(seek_bar_offset(0, 40, 18), Some((0, 21)));
    assert_eq!(seek_bar_offset(0, 40, 38), Some((20, 21)));
    assert_eq!(seek_bar_offset(0, 40, 39), None);
    assert_eq!(seek_bar_offset(0, 40, 17), None);
    assert_eq!(seek_bar_offset(0, 19, 18), None);
    assert_eq!(seek_bar_offset(0, 1, 0), None);
}

#[test]
fn progress_bar_geometry() {
    assert_eq!(progress_bar_offset(10, 40, 18), Some((0, 24)));
    assert_eq!(progress_bar_offset(10, 40, 41), Some((23, 24)));
    assert_eq!(progress_bar_offset(10, 40, 42), None);
    assert_eq!(progress_bar_offset(10, 40, 17), None);
}

#[test]
fn cava_heights() {
    assert_eq!(cava_height(24), 9);
    assert_eq!(cava_height(5), 4);
    assert_eq!(cava_height(100), 40);
}
