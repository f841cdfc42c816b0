use win32ui::controls::combobox::ComboBox;
use win32ui::controls::combobox_events::{selection_message, ComboBoxEvents, CBN_SELCHANGE};
use win32ui::controls::combobox_model::ComboBoxItems;
use win32ui::hwnd::Hwnd;
use win32ui::message::{Command, CommandNotification, Message};

const COMBO: Hwnd = Hwnd(0x7001);
const OTHER: Hwnd = Hwnd(0x7002);

type Picker = fn(&u32) -> Option<String>;

fn items() -> ComboBoxItems<u32> {
    ComboBoxItems::from_pairs(vec![
        ("Alpha".to_string(), 10u32),
        ("Beta".to_string(), 20),
        ("Gamma".to_string(), 30),
    ])
}

fn command(control: Hwnd, code: u16) -> Message {
    Message::Command(Command { id: 0, control: Some(control), notification: CommandNotification::Other(code) })
}

fn events() -> ComboBoxEvents<Picker> {
    ComboBoxEvents { on_select: Some(|value: &u32| Some(format!("picked {value}"))) }
}

#[test]
fn selection_change_maps_index_to_value_and_msg() {
    let mapped = selection_message(&command(COMBO, 1), COMBO, Some(1), &items(), &events());
    assert_eq!(mapped, Some(Some("picked 20".to_string())));
}

#[test]
fn selection_change_without_selection_is_consumed() {
    let mapped = selection_message(&command(COMBO, 1), COMBO, None, &items(), &events());
    assert_eq!(mapped, Some(None));
}

#[test]
fn combobox_events_other_control_is_ignored() {
    assert_eq!(selection_message(&command(OTHER, 1), COMBO, Some(0), &items(), &events()), None);
}

#[test]
fn other_notification_is_ignored() {
    assert_eq!(selection_message(&command(COMBO, 2), COMBO, Some(0), &items(), &events()), None);
}

#[test]
fn without_mapper_the_change_is_still_consumed() {
    let empty: ComboBoxEvents<Picker> = ComboBoxEvents::new();
    let mapped = selection_message(&command(COMBO, 1), COMBO, Some(2), &items(), &empty);
    assert_eq!(mapped, Some(None));
}

#[test]
fn maps_index_to_value_and_back() {
    let items = items();
    assert_eq!(items.len(), 3);
    assert_eq!(items.value(0), Some(&10));
    assert_eq!(items.value(2), Some(&30));
    assert_eq!(items.value(3), None);
    assert_eq!(items.position(&20), Some(1));
    assert_eq!(items.position(&99), None);
}

#[test]
fn duplicate_values_map_to_the_first() {
    let items: ComboBoxItems<u32> =
        ComboBoxItems::from_pairs(vec![("First".to_string(), 7u32), ("Second".to_string(), 7)]);
    assert_eq!(items.position(&7), Some(0));
}

#[test]
fn labels_are_in_item_order() {
    let items = items();
    let labels: Vec<&str> = items.labels();
    assert_eq!(labels, ["Alpha", "Beta", "Gamma"]);
    assert_eq!(items.label(1), Some("Beta"));
    assert_eq!(items.label(9), None);
}

#[test]
fn an_out_of_range_selection_maps_to_nothing() {
    let mapped = selection_message(&command(COMBO, CBN_SELCHANGE), COMBO, Some(7), &items(), &events());
    assert_eq!(mapped, Some(None));
}

fn combo() -> ComboBox<u32, Picker> {
    ComboBox::new(
        COMBO,
        vec![("Small".to_string(), 1u32), ("Medium".to_string(), 2), ("Large".to_string(), 3)],
        0,
    )
}

#[test]
fn a_new_combo_has_a_sensible_height_and_no_selection() {
    let combo = combo();
    assert_eq!(combo.control.bounds.bottom, 1);
    assert_eq!(combo.selected_index(), None);
    assert_eq!(combo.len(), 3);
    assert!(!combo.is_empty());
}

#[test]
fn selecting_by_value_finds_the_item() {
    let combo = combo().select(&2);
    assert_eq!(combo.selected_index(), Some(1));
    assert_eq!(combo.selected(), Some(&2));
    let combo = combo.select(&9);
    assert_eq!(combo.selected_index(), None);
}

#[test]
fn swapping_items_keeps_the_selected_value() {
    let mut combo = combo().select(&3);
    combo.set_items(vec![("Large".to_string(), 3u32), ("Huge".to_string(), 4)]);
    assert_eq!(combo.selected_index(), Some(0));
    assert_eq!(combo.selected(), Some(&3));
    combo.set_items(vec![("Tiny".to_string(), 0u32)]);
    assert_eq!(combo.selected_index(), None);
}

#[test]
fn the_combo_reports_its_own_selection_change() {
    let mut combo = combo().on_select(|value: &u32| Some(format!("size {value}")));
    let mapped = combo.selection_message(&command(COMBO, CBN_SELCHANGE), Some(2));
    assert_eq!(mapped, Some(Some("size 3".to_string())));
    assert_eq!(combo.selected_index(), Some(2));
    assert_eq!(combo.selection_message::<String>(&command(OTHER, CBN_SELCHANGE), Some(0)), None);
    assert_eq!(combo.selected_index(), Some(2));
}
