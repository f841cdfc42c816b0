use win32ui::color::Color;
use win32ui::controls::button::{Button, BS_DEFPUSHBUTTON};
use win32ui::controls::checkbox::CheckBox;
use win32ui::controls::color_picker::{ColorPicker, PickerAction};
use win32ui::controls::control::{clicked, Control, ControlExt, HasText, IdSource};
use win32ui::controls::groupbox::GroupBox;
use win32ui::controls::label::Label;
use win32ui::controls::radio::{option_bounds, RadioGroup, RadioOption};
use win32ui::Error;
use win32ui::geometry::Rect;
use win32ui::hwnd::Hwnd;
use win32ui::message::{Command, CommandNotification, Message};
use win32ui::theme::Theme;

const BUTTON: Hwnd = Hwnd(0x7201);
const OTHER: Hwnd = Hwnd(0x7202);

fn click(control: Hwnd) -> Message {
    Message::Command(Command { id: 0, control: Some(control), notification: CommandNotification::Clicked })
}

#[test]
fn ids_are_never_zero() {
    let mut ids = IdSource::new();
    assert_eq!(ids.next_id(), 1);
    assert_eq!(ids.next_id(), 2);
}

#[test]
fn clicks_are_matched_by_control() {
    assert!(clicked(&click(BUTTON), BUTTON));
    assert!(!clicked(&click(OTHER), BUTTON));
    assert!(!clicked(&Message::Paint, BUTTON));
}

#[test]
fn a_button_fits_its_text_and_maps_clicks() {
    let button: Button<fn() -> Option<&'static str>> = Button::new(BUTTON, 3, 96, "OK", 20, 16);
    assert_eq!(button.bounds(), Rect::new(0, 0, 64, 30));
    let wide: Button<fn() -> Option<&'static str>> = Button::new(BUTTON, 3, 192, "Apply changes", 120, 32);
    assert_eq!(wide.bounds(), Rect::new(0, 0, 176, 60));
    let mut button = button.on_click(|| Some("ok")).default();
    assert!(button.is_default());
    assert_eq!(button.style() & BS_DEFPUSHBUTTON, BS_DEFPUSHBUTTON);
    assert_eq!(button.click_message(&click(BUTTON)), Some(Some("ok")));
    assert_eq!(button.click_message(&click(OTHER)), None);
    button.set_default(false);
    assert_eq!(button.style() & BS_DEFPUSHBUTTON, 0);
    button.set_text("Go");
    assert_eq!(button.text(), "Go");
}

#[test]
fn a_check_box_toggles_and_reports_the_new_state() {
    let report: fn(bool) -> Option<bool> = |on| Some(on);
    let mut check = CheckBox::new(BUTTON, 96, "Wrap", 30, 16).checked(true).on_toggle(report);
    assert_eq!(check.bounds(), Rect::new(0, 0, 64, 26));
    assert_eq!(check.click_message(&click(BUTTON)), Some(Some(false)));
    assert!(!check.is_checked());
    assert_eq!(check.click_message(&click(OTHER)), None);
    assert!(!check.is_checked());
    assert_eq!(check.click(), Some(true));
}

#[test]
fn a_color_picker_reports_only_new_colours() {
    let red = Color::rgb(255, 0, 0);
    let blue = Color::rgb(0, 0, 255);
    let report: fn(Color) -> Option<Color> = |c| Some(c);
    let mut picker = ColorPicker::new(BUTTON, 96, red).on_change(report);
    assert_eq!(picker.bounds(), Rect::new(0, 0, 56, 24));
    assert_eq!(picker.action(&click(BUTTON)), PickerAction::Choose { current: red });
    let draw = Message::DrawItem { control: BUTTON, dc: 5, area: Rect::new(0, 0, 56, 24), state: 1 };
    assert_eq!(picker.action(&draw), PickerAction::Draw { dc: 5, area: Rect::new(0, 0, 56, 24), color: red, state: 1 });
    assert_eq!(picker.action(&click(OTHER)), PickerAction::Ignore);
    assert_eq!(picker.chosen(None), None);
    assert_eq!(picker.chosen(Some(red)), None);
    assert_eq!(picker.chosen(Some(blue)), Some(blue));
    assert_eq!(picker.color(), blue);
    assert!(!picker.set_color(blue));
    assert!(picker.set_color(red));
}

#[test]
fn a_group_box_paints_from_its_theme() {
    let theme = Theme::dark();
    let mut group = GroupBox::new(BUTTON, 96, "Output", 50, 16, theme);
    assert_eq!(group.bounds(), Rect::new(0, 0, 96, 30));
    let draw = Message::DrawItem { control: BUTTON, dc: 9, area: Rect::new(0, 0, 96, 30), state: 0 };
    let request = group.draw_request(&draw).expect("its own paint");
    assert_eq!(request.paint.border, theme.border);
    assert!(group.draw_request(&click(BUTTON)).is_none());
    group.set_text("Input");
    assert_eq!(group.text(), "Input");
}

#[test]
fn a_label_keeps_its_text() {
    let mut label = Label::new(BUTTON, Rect::new(0, 0, 80, 20), "Name");
    assert!(label.is_visible() && label.is_enabled());
    assert_eq!(label.text(), "Name");
    label.set_text("Title");
    assert_eq!(label.text(), "Title");
}

fn option(raw: usize, label: &str) -> RadioOption {
    RadioOption {
        control: Control::own(Hwnd(raw), Rect::default()),
        label: label.to_string(),
        theme: Theme::light(),
    }
}

#[test]
fn radio_options_stack_in_rows() {
    let bounds = option_bounds(96, &vec![30, 80, 50], 16);
    assert_eq!(bounds, vec![Rect::new(0, 0, 108, 26), Rect::new(0, 28, 108, 54), Rect::new(0, 56, 108, 82)]);
}

#[test]
fn a_radio_group_selects_by_value() {
    assert_eq!(
        RadioGroup::<u32, fn(&u32) -> Option<u32>>::new(vec![], vec![]).err(),
        Some(Error::CreateControl("RadioGroup".to_string()))
    );
    let group: RadioGroup<u32, fn(&u32) -> Option<u32>> =
        RadioGroup::new(vec![option(1, "Low"), option(2, "High")], vec![10, 20]).expect("two options");
    assert_eq!(group.selected_index(), Some(0));
    let mut group = group.on_select(|value| Some(*value));
    assert!(group.set_selected(&20));
    assert_eq!(group.selected_value(), Some(20));
    assert!(!group.set_selected(&99));
    assert_eq!(group.selected_index(), Some(1));
    assert_eq!(group.clicked_option(&click(Hwnd(1))), Some(0));
    assert_eq!(group.click(0), Some(Some(10)));
    assert_eq!(group.click(5), None);
    assert_eq!(group.focus(), Hwnd(1));
    group.set_enabled(false);
    assert!(group.options().iter().all(|option| !option.control.enabled));
}

#[test]
fn a_radio_group_needs_one_value_per_option() {
    assert_eq!(
        RadioGroup::<u32, fn(&u32) -> Option<u32>>::new(vec![option(1, "Low")], vec![10, 20]).err(),
        Some(Error::CreateControl("RadioGroup".to_string()))
    );
}
