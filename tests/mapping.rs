use pong::mapper::{ball_cells, paddle_cells, PADDLE_MARGIN};

#[test]
fn ball_at_origin() {
    let (top, bottom) = ball_cells(0, 0, 100, 30);
    assert_eq!((top.x, top.y, top.text), (0, 1, "▗▄"));
    assert_eq!((bottom.x, bottom.y, bottom.text), (0, 1, "▝▀"));
}

#[test]
fn ball_mid_column_low_row() {
    // x: 50.5 cells, y: 15.15 cells
    let (top, bottom) = ball_cells(5050, 5050, 100, 30);
    assert_eq!((top.x, top.y, top.text), (47, 14, "▗▄▖"));
    assert_eq!((bottom.x, bottom.y, bottom.text), (47, 15, "▝▀▘"));
}

#[test]
fn ball_mid_column_mid_row() {
    // y: 16.5 cells
    let (top, bottom) = ball_cells(5050, 5500, 100, 30);
    assert_eq!((top.x, top.y, top.text), (47, 16, "██"));
    assert_eq!((bottom.x, bottom.y, bottom.text), (47, 17, ""));
}

#[test]
fn ball_high_column_high_row() {
    // x: 50.7 cells, y: 16.8 cells
    let (top, bottom) = ball_cells(5070, 5600, 100, 30);
    assert_eq!((top.x, top.y, top.text), (48, 16, "▄▖"));
    assert_eq!((bottom.x, bottom.y, bottom.text), (48, 17, "▀▘"));
}

#[test]
fn ball_low_column_mid_row() {
    // x: 50.2 cells
    let (top, bottom) = ball_cells(5020, 5500, 100, 30);
    assert_eq!((top.x, top.y, top.text), (46, 16, "▐█▌"));
    assert_eq!((bottom.x, bottom.y, bottom.text), (46, 17, ""));
}

#[test]
fn ball_rows_kept_off_bottom_border() {
    let (top, bottom) = ball_cells(10000, 10000, 100, 30);
    assert_eq!(top.x, 96);
    assert_eq!(top.y, 28);
    assert_eq!(bottom.y, 28);
}

#[test]
fn ball_in_smallest_region() {
    let (top, bottom) = ball_cells(5000, 5000, 0, 3);
    assert_eq!(top.x, 0);
    assert_eq!(top.y, 1);
    assert_eq!(bottom.y, 1);
}

#[test]
fn paddle_centered_on_its_cell() {
    let (cap, body, foot) = paddle_cells(5000, 30);
    assert_eq!((cap.x, cap.y, cap.text), (PADDLE_MARGIN, 14, "┓"));
    assert_eq!((body.x, body.y, body.text), (1, 15, "┃"));
    assert_eq!((foot.x, foot.y, foot.text), (1, 16, "┛"));
}

#[test]
fn paddle_rows_clamped_into_region() {
    let (cap, body, foot) = paddle_cells(0, 30);
    assert_eq!((cap.y, body.y, foot.y), (1, 1, 1));
    let (cap, body, foot) = paddle_cells(10000, 30);
    assert_eq!((cap.y, body.y, foot.y), (28, 28, 28));
}
