use win32ui::controls::control::HasText;
use win32ui::controls::edit::{Edit, EditKind, ES_AUTOHSCROLL, ES_MULTILINE, ES_PASSWORD};
use win32ui::controls::edit_events::{command_message, EditEvents, EN_CHANGE, EN_KILLFOCUS, EN_SETFOCUS};
use win32ui::controls::edit_text::{from_native, to_native};
use win32ui::controls::style::WS_EX_CLIENTEDGE;
use win32ui::hwnd::Hwnd;
use win32ui::message::{Command, CommandNotification, Message};

const EDIT: Hwnd = Hwnd(0x7101);
const OTHER: Hwnd = Hwnd(0x7102);

type OnChange = fn(&str) -> Option<String>;
type OnSubmit = fn() -> Option<String>;
type OnFocus = fn(bool) -> Option<String>;

fn command(control: Hwnd, code: u16) -> Message {
    Message::Command(Command { id: 0, control: Some(control), notification: CommandNotification::Other(code) })
}

fn events() -> EditEvents<OnChange, OnSubmit, OnFocus> {
    EditEvents {
        on_change: Some(|text: &str| Some(format!("changed:{text}"))),
        on_submit: Some(|| Some("submit".to_string())),
        on_focus: Some(|focused: bool| Some(if focused { "focus" } else { "blur" }.to_string())),
    }
}

#[test]
fn change_reads_the_text() {
    let mapped = command_message(&command(EDIT, EN_CHANGE), EDIT, || "hi".to_string(), &events());
    assert_eq!(mapped, Some(Some("changed:hi".to_string())));
}

#[test]
fn focus_and_blur_map_to_a_flag() {
    let mapped = command_message(&command(EDIT, EN_SETFOCUS), EDIT, String::new, &events());
    assert_eq!(mapped, Some(Some("focus".to_string())));
    let mapped = command_message(&command(EDIT, EN_KILLFOCUS), EDIT, String::new, &events());
    assert_eq!(mapped, Some(Some("blur".to_string())));
}

#[test]
fn edit_events_other_control_is_ignored() {
    assert_eq!(command_message(&command(OTHER, EN_CHANGE), EDIT, String::new, &events()), None);
}

#[test]
fn unrelated_notification_is_ignored() {
    assert_eq!(command_message(&command(EDIT, 0x0001), EDIT, String::new, &events()), None);
}

#[test]
fn without_mapper_the_notification_is_still_consumed() {
    let empty: EditEvents<OnChange, OnSubmit, OnFocus> = EditEvents::new();
    assert_eq!(command_message(&command(EDIT, EN_CHANGE), EDIT, || "x".to_string(), &empty), Some(None));
}

#[test]
fn lf_becomes_crlf_for_native_storage() {
    assert_eq!(to_native("a\nb"), "a\r\nb");
    assert_eq!(to_native("a\r\nb"), "a\r\nb");
    assert_eq!(to_native("a\rb"), "a\r\nb");
}

#[test]
fn crlf_comes_back_as_lf() {
    assert_eq!(from_native("a\r\nb"), "a\nb");
    assert_eq!(from_native("a\nb"), "a\nb");
}

#[test]
fn round_trip_is_lossless() {
    for text in ["", "plain", "a\nb\nc", "日本語\n🎵", "e\u{301}\n"] {
        assert_eq!(from_native(&to_native(text)), text);
    }
}

#[test]
fn native_form_is_idempotent() {
    for text in ["a\nb", "a\r\nb", "a\rb", "\r\r\n\n"] {
        assert_eq!(to_native(&to_native(text)), to_native(text));
    }
}

#[test]
fn a_lone_carriage_return_comes_back_as_a_line_feed() {
    assert_eq!(from_native(&to_native("a\rb")), "a\nb");
}

#[test]
fn field_kinds_take_their_styles_and_heights() {
    let single: Edit<OnChange, OnSubmit, OnFocus> = Edit::single_line(EDIT, 96, 16);
    assert_eq!(single.control.bounds.bottom, 16 + 10);
    assert_eq!(single.style() & ES_AUTOHSCROLL, ES_AUTOHSCROLL);
    assert_eq!(single.ex_style(), 0);
    assert!(!single.is_multiline());

    let multi: Edit<OnChange, OnSubmit, OnFocus> = Edit::multi_line(EDIT, 192, 30);
    assert_eq!(multi.control.bounds.bottom, 30 * 4 + 20);
    assert_eq!(multi.style() & ES_MULTILINE, ES_MULTILINE);
    assert_eq!(multi.ex_style(), WS_EX_CLIENTEDGE);
    assert!(multi.is_multiline() && multi.word_wrap);

    let password: Edit<OnChange, OnSubmit, OnFocus> = Edit::password(EDIT, 96, 0);
    assert_eq!(password.control.bounds.bottom, 1 + 10);
    assert_eq!(password.style() & ES_PASSWORD, ES_PASSWORD);
    assert_eq!(password.kind, EditKind::Password);
}

#[test]
fn the_field_keeps_native_text_and_reports_lf_text() {
    let now: OnChange = |text: &str| Some(format!("now:{text}"));
    let mut edit: Edit<OnChange, OnSubmit, OnFocus> = Edit::multi_line(EDIT, 96, 16)
        .on_change(now)
        .cue("Notes")
        .max_length(40);
    edit.set_text("one\ntwo");
    assert_eq!(edit.native_text, "one\r\ntwo");
    assert_eq!(edit.text(), "one\ntwo");
    assert_eq!(edit.cue, "Notes");
    assert_eq!(edit.max_length, Some(40));
    let mapped = edit.command_message(&command(EDIT, EN_CHANGE));
    assert_eq!(mapped, Some(Some("now:one\ntwo".to_string())));
}

#[test]
fn enter_submits_only_a_single_line_field() {
    let go: OnSubmit = || Some("go".to_string());
    let single: Edit<OnChange, OnSubmit, OnFocus> = Edit::single_line(EDIT, 96, 16).on_submit(go);
    assert_eq!(single.submit_message(), Some("go".to_string()));
    let multi: Edit<OnChange, OnSubmit, OnFocus> = Edit::multi_line(EDIT, 96, 16).on_submit(go);
    assert_eq!(multi.submit_message(), None);
}
