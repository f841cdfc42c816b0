use win32ui::controls::custom::scroll::{CustomScroll, WHEEL_NOTCH_DIP};
use win32ui::geometry::Rect;
use win32ui::message::Key;
use win32ui::units::dip;

const DPI: u32 = 96;
const WHEEL_DELTA: i32 = 120;

/// A 5000 dip tall content in a 300 dip viewport, scrolling a notch per line.
fn host() -> CustomScroll {
    let mut scroll = CustomScroll::new(dip(WHEEL_NOTCH_DIP).to_px(DPI).value());
    scroll.on_size(dip(300).to_px(DPI).value());
    scroll.set_content_height(dip(5000), DPI);
    scroll
}

#[test]
fn scroll_host_reports_range_page_and_scrolls() {
    let mut scroll = host();
    let content = dip(5000).to_px(DPI).value();
    let viewport = dip(300).to_px(DPI).value();
    assert_eq!(scroll.content_height(), content);
    assert_eq!(scroll.page(), viewport);
    assert_eq!(scroll.offset(), 0);

    scroll.scroll_to(dip(100_000), DPI);
    assert_eq!(scroll.offset_dip(DPI), dip(4700), "scrolling past the end clamps to content - page");

    scroll.scroll_to(dip(-50), DPI);
    assert_eq!(scroll.offset_dip(DPI), dip(0), "scrolling above the top clamps to zero");

    scroll.scroll_to(dip(200), DPI);
    assert!(scroll.wheel(-120, WHEEL_DELTA));
    assert_eq!(scroll.offset_dip(DPI), dip(248), "one wheel notch down scrolls 48 dip");

    scroll.scroll_to(dip(0), DPI);
    scroll.scroll_into_view(Rect::new(0, 800, 100, 900), DPI);
    assert_eq!(scroll.offset_dip(DPI), dip(600), "the 800..900 band moves into the 300 viewport");
}

#[test]
fn half_wheel_notches_accumulate() {
    let mut scroll = host();
    scroll.scroll_to(dip(200), DPI);
    assert!(!scroll.wheel(60, WHEEL_DELTA), "half a notch does not scroll yet");
    assert_eq!(scroll.offset_dip(DPI), dip(200));
    assert!(scroll.wheel(60, WHEEL_DELTA));
    assert_eq!(scroll.offset_dip(DPI), dip(152), "two halves move one notch up");
}

#[test]
fn navigation_keys_scroll_and_others_do_not() {
    let mut scroll = host();
    assert!(scroll.key(Key::from_code(0x22)), "Page Down");
    assert_eq!(scroll.offset_dip(DPI), dip(300));
    assert!(scroll.key(Key::from_code(0x23)), "End");
    assert_eq!(scroll.offset_dip(DPI), dip(4700));
    assert!(scroll.key(Key::from_code(0x24)), "Home");
    assert_eq!(scroll.offset_dip(DPI), dip(0));
    assert!(!scroll.key(Key::from_code(0x41)), "A is not a navigation key");
    assert_eq!(scroll.offset_dip(DPI), dip(0));
}
