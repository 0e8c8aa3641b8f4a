use yomimado::{layout_fits_i32, overlay_pixels, LayoutPixels};

struct Rect {
    x: f64,
    y: f64,
    width: f64,
    height: f64,
}

/// Rounds the capture metadata to whole pixels the way the overlay command does.
fn pixels(scale: f64, screen: &Rect, selection: &Rect) -> LayoutPixels {
    LayoutPixels {
        toolbar: (32.0 * scale).round() as i32,
        minimum_width: (148.0 * scale).round() as i32,
        screen_left: screen.x.round() as i32,
        screen_top: screen.y.round() as i32,
        screen_right: (screen.x + screen.width).round() as i32,
        screen_bottom: (screen.y + screen.height).round() as i32,
        selection_x: selection.x.round() as i32,
        selection_y: selection.y.round() as i32,
        selection_width: selection.width.round() as i32,
        selection_height: selection.height.round() as i32,
    }
}

#[test]
fn small_selection_gets_toolbar_outside_image() {
    let scale = 2.0;
    let screen = Rect { x: 0.0, y: 0.0, width: 1920.0, height: 1080.0 };
    let selection = Rect { x: 1800.0, y: 300.0, width: 40.0, height: 70.0 };
    let result = overlay_pixels(pixels(scale, &screen, &selection));
    assert_eq!(result.window_x, 1624);
    assert_eq!(f64::from(result.content_left) / scale, 88.0);
    assert_eq!(f64::from(result.content_top) / scale, 32.0);
    assert_eq!(f64::from(result.toolbar_top) / scale, 0.0);
    assert_eq!(f64::from(result.content_width) / scale, 20.0);
}

#[test]
fn content_stays_on_the_selected_screen_rectangle() {
    let scale = 2.0;
    let screen = Rect { x: 0.0, y: 0.0, width: 2940.0, height: 1912.0 };
    let selection = Rect { x: 1200.0, y: 666.0, width: 200.0, height: 300.0 };
    let result = overlay_pixels(pixels(scale, &screen, &selection));
    let content_left = f64::from(result.content_left) / scale;
    let content_top = f64::from(result.content_top) / scale;
    assert_eq!(f64::from(result.window_x) + content_left * 2.0, 1200.0);
    assert_eq!(f64::from(result.window_y) + content_top * 2.0, 666.0);
    assert_eq!(f64::from(result.content_width) / scale * 2.0, 200.0);
    assert_eq!(f64::from(result.content_height) / scale * 2.0, 300.0);
}

#[test]
fn toolbar_goes_below_when_the_selection_touches_the_top() {
    let p = LayoutPixels {
        toolbar: 32,
        minimum_width: 148,
        screen_left: 0,
        screen_top: 0,
        screen_right: 1000,
        screen_bottom: 800,
        selection_x: 10,
        selection_y: 5,
        selection_width: 300,
        selection_height: 200,
    };
    let r = overlay_pixels(p);
    assert_eq!((r.window_x, r.window_y, r.window_width, r.window_height), (10, 5, 300, 232));
    assert_eq!((r.content_left, r.content_top, r.toolbar_top), (0, 0, 200));
}

#[test]
fn full_screen_selection_has_no_toolbar_gutter() {
    let p = LayoutPixels {
        toolbar: 64,
        minimum_width: 296,
        screen_left: -1920,
        screen_top: 0,
        screen_right: 0,
        screen_bottom: 1080,
        selection_x: -1920,
        selection_y: 0,
        selection_width: 1920,
        selection_height: 1080,
    };
    let r = overlay_pixels(p);
    assert_eq!((r.window_x, r.window_y, r.window_width, r.window_height), (-1920, 0, 1920, 1080));
    assert_eq!((r.content_left, r.content_top, r.toolbar_top), (0, 0, 0));
}

#[test]
fn window_is_pushed_back_onto_a_narrow_screen() {
    let p = LayoutPixels {
        toolbar: 32,
        minimum_width: 148,
        screen_left: 100,
        screen_top: 0,
        screen_right: 200,
        screen_bottom: 500,
        selection_x: 150,
        selection_y: 100,
        selection_width: 20,
        selection_height: 20,
    };
    let r = overlay_pixels(p);
    assert_eq!((r.window_x, r.window_width), (100, 100));
    assert_eq!(r.window_x + r.content_left, 150);
    assert_eq!(r.window_y + r.content_top, 100);
}

#[test]
fn layout_fit_check_catches_overflow() {
    let mut p = LayoutPixels {
        toolbar: 64,
        minimum_width: 296,
        screen_left: 0,
        screen_top: 0,
        screen_right: 1920,
        screen_bottom: 1080,
        selection_x: 1800,
        selection_y: 300,
        selection_width: 40,
        selection_height: 70,
    };
    assert!(layout_fits_i32(p));
    p.screen_left = i32::MIN;
    assert!(!layout_fits_i32(p));
    p.screen_left = 0;
    p.selection_y = i32::MIN + 10;
    assert!(!layout_fits_i32(p));
    // with room above, the bottom edge is never computed
    p.selection_y = i32::MAX - 10;
    p.selection_height = 100;
    assert!(layout_fits_i32(p));
    // without it, the bottom edge overflows
    p.screen_top = i32::MAX - 20;
    assert!(!layout_fits_i32(p));
}
