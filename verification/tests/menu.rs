use win32ui::accel::Shortcut;
use win32ui::controls::menu::access::plain;
use win32ui::controls::menu::access::AccessNode;
use win32ui::controls::menu::paint::{measure, paint_item, Glyph, MenuFont, MenuPaint, ODS_DISABLED, ODS_SELECTED};
use win32ui::controls::menu::{Menu, RenderItem, COMMAND_BASE};
use win32ui::geometry::{Point, Rect, Size};
use win32ui::message::Key;
use win32ui::theme::Theme;

type Action = fn() -> u8;

fn key(letter: char) -> Key {
    Key::from_code(letter as u16)
}

#[test]
fn set_checked_updates_a_keyed_item() {
    let mut menu = Menu::<Action>::new().checked_item("Wrap", None, false, || 1).keyed("wrap");
    assert!(menu.set_checked("wrap", true));
    assert!(!menu.set_checked("missing", true));
    let data = menu.data_ids()[0];
    assert!(menu.render(data).unwrap().checked);
}

#[test]
fn bar_items_have_no_chevron() {
    let mut menu = Menu::<Action>::new()
        .item("&Plain", None, || 1)
        .submenu("&More", Menu::<Action>::new().item("&Deep", None, || 2));
    let ids = menu.data_ids();

    menu.mark_built(true, true);
    let plain = menu.render(ids[0]).expect("bar item");
    assert!(plain.bar_item, "a top-level bar item is a bar item");
    assert!(!plain.submenu);

    let more = menu.render(ids[1]).expect("bar submenu");
    assert!(more.bar_item);
    assert!(!more.submenu, "a bar submenu draws no chevron");

    let deep = menu.render(ids[2]).expect("nested item");
    assert!(!deep.bar_item, "a nested item is a popup item");

    menu.mark_built(false, true);
    let popup = menu.render(ids[1]).expect("popup submenu");
    assert!(popup.submenu && !popup.bar_item);
}

#[test]
fn collects_shortcuts() {
    let menu = Menu::<Action>::new()
        .item("Open", Some(Shortcut::ctrl(key('O'))), || 1)
        .disabled_item("Gone", Some(Shortcut::ctrl(key('G'))), || 2)
        .submenu("More", Menu::<Action>::new().item("Deep", Some(Shortcut::ctrl(key('D'))), || 3));
    let shortcuts = menu.shortcuts();
    assert_eq!(shortcuts.len(), 2, "enabled shortcuts only");
    assert_eq!(shortcuts[0].0, Shortcut::ctrl(key('O')));
    assert_eq!(shortcuts[1].0, Shortcut::ctrl(key('D')));
}

#[test]
fn commands_and_render_round_trip() {
    let menu = Menu::<Action>::new()
        .item("Open", None, || 1)
        .checked_item("Wrap", None, true, || 2)
        .separator()
        .submenu("More", Menu::<Action>::new().item("Deep", None, || 3));

    let commands = menu.command_ids();
    assert_eq!(commands.len(), 3);
    assert!(menu.find_action(commands[0]).is_some());
    assert!(menu.find_action(commands[2]).is_some(), "submenu command");
    assert!(menu.find_action(0xFFFF).is_none());

    let data = menu.data_ids();
    assert_eq!(data.len(), 5, "item, item, separator, submenu, deep item");
    let wrap = menu.render(data[1]).expect("checked item");
    assert!(wrap.checked && !wrap.radio && wrap.enabled);
    let separator = menu.render(data[2]).expect("separator");
    assert!(separator.separator);
    assert_eq!(menu.render(data[4]).expect("deep item").label, "Deep");
}

#[test]
fn the_chosen_command_runs_its_own_action() {
    let menu = Menu::<Action>::new()
        .item("Open", None, || 1)
        .submenu("More", Menu::<Action>::new().item("Deep", None, || 3).disabled_item("Off", None, || 4));
    let commands = menu.command_ids();
    assert_eq!(commands, vec![COMMAND_BASE, COMMAND_BASE + 1, COMMAND_BASE + 2]);
    assert_eq!(menu.find_action(commands[0]).map(|f| f()), Some(1));
    assert_eq!(menu.find_action(commands[1]).map(|f| f()), Some(3));
    assert!(menu.find_action(commands[2]).is_none(), "a disabled item is never chosen");
    assert!(menu.render(0).is_none());
    assert!(menu.render(5).is_none());
    assert_eq!(menu.bar_len(), 2);
}

#[test]
fn labels_lose_their_accelerator_markers() {
    assert_eq!(plain("&File"), "File");
    assert_eq!(plain("Save && Quit"), "Save & Quit");
    assert_eq!(plain("Trailing&"), "Trailing");
    assert_eq!(plain(""), "");
}

fn item<'a>(label: &'a str) -> RenderItem<'a> {
    RenderItem {
        label,
        shortcut: None,
        checked: false,
        radio: false,
        enabled: true,
        submenu: false,
        separator: false,
        bar_item: false,
    }
}

#[test]
fn items_measure_their_parts() {
    let font = MenuFont { pixel_height: 16, label_width: 50, shortcut_width: 30 };
    assert_eq!(measure(&item("Open"), 96, Some(font)), Size::new(24 + 50 + 24 + 30 + 16, 24));
    let tall = MenuFont { pixel_height: 20, label_width: 50, shortcut_width: 0 };
    let submenu = RenderItem { submenu: true, ..item("More") };
    assert_eq!(measure(&submenu, 192, Some(tall)), Size::new(48 + 50 + 32 + 40, 48));
    assert_eq!(measure(&item("x"), 96, None), Size::new(140, 24));
    let separator = RenderItem { separator: true, ..item("") };
    assert_eq!(measure(&separator, 96, Some(font)), Size::new(140, 7));
}

#[test]
fn items_paint_from_theme_tokens() {
    let theme = Theme::dark();
    let paint = MenuPaint::from_theme(&theme);
    assert_eq!(paint.background, theme.raised);
    assert_eq!(paint.shortcut, theme.text_secondary);
    let area = Rect::new(0, 0, 200, 24);
    let font = Some(MenuFont { pixel_height: 16, label_width: 40, shortcut_width: 30 });

    let separator = RenderItem { separator: true, ..item("") };
    let plan = paint_item(area, 0, &separator, &paint, 96, font);
    assert_eq!(plan.separator.map(|fill| fill.rect), Some(Rect::new(8, 12, 200, 13)));
    assert!(plan.background.is_none() && plan.label.is_none());

    let checked = RenderItem { checked: true, shortcut: Some(Shortcut::ctrl(Key::from_code(0x53))), ..item("Save") };
    let plan = paint_item(area, ODS_SELECTED, &checked, &paint, 96, font);
    assert_eq!(plan.background.map(|fill| fill.color), Some(paint.selection));
    assert_eq!(
        plan.glyph,
        Some(Glyph::Check {
            from: Point::new(6, 12),
            corner: Point::new(10, 16),
            to: Point::new(16, 8),
            width: 2,
            color: paint.text,
        })
    );
    assert_eq!(plan.shortcut.map(|run| run.rect), Some(Rect::new(146, 0, 176, 24)));
    assert_eq!(plan.label.map(|run| run.rect), Some(Rect::new(24, 0, 138, 24)));
    assert!(plan.chevron.is_none());

    let radio = RenderItem { checked: true, radio: true, submenu: true, enabled: false, ..item("Left") };
    let plan = paint_item(area, ODS_DISABLED, &radio, &paint, 96, font);
    assert_eq!(plan.background.map(|fill| fill.color), Some(paint.background));
    assert!(matches!(plan.glyph, Some(Glyph::Radio { radius: 5, .. })));
    assert_eq!(plan.label.map(|run| (run.rect, run.color)), Some((Rect::new(24, 0, 164, 24), paint.text_disabled)));
    let chevron = plan.chevron.expect("a popup submenu draws a chevron");
    assert_eq!((chevron.top, chevron.tip, chevron.bottom), (Point::new(185, 9), Point::new(188, 12), Point::new(185, 15)));

    let without_font = paint_item(area, 0, &checked, &paint, 96, None);
    assert!(without_font.glyph.is_some() && without_font.label.is_none() && without_font.shortcut.is_none());
}

#[test]
fn accessibility_lists_items_and_submenus_without_separators() {
    let menu = Menu::<Action>::new()
        .item("&Open", Some(Shortcut::ctrl(key('O'))), || 1)
        .separator()
        .radio_item("&Wide", None, false, || 2)
        .submenu("&More", Menu::<Action>::new().item("&Deep", None, || 3).disabled_item("Off", None, || 4));
    let nodes: Vec<AccessNode> = menu.access_nodes();
    let names: Vec<&str> = nodes.iter().map(|n| n.name.as_str()).collect();
    assert_eq!(names, vec!["Open", "Wide", "More", "Deep", "Off"]);
    assert_eq!(nodes.iter().map(|n| n.depth).collect::<Vec<_>>(), vec![0, 0, 0, 1, 1]);
    assert!(nodes[0].invokable && nodes[0].enabled);
    assert_eq!(nodes[0].checked, None);
    assert_eq!(nodes[0].shortcut, Some(Shortcut::ctrl(key('O'))));
    assert_eq!(nodes[1].checked, Some(false), "a radio item reports its dot");
    assert!(!nodes[2].invokable && nodes[2].enabled, "a submenu opens, it is not invoked");
    assert!(!nodes[4].enabled);
}

#[test]
fn an_accessibility_path_reaches_enabled_leaves_only() {
    let menu = Menu::<Action>::new()
        .item("Open", None, || 1)
        .separator()
        .submenu("More", Menu::<Action>::new().item("Deep", None, || 3).disabled_item("Off", None, || 4));
    assert_eq!(menu.access_action(&vec![0]).map(|f| f()), Some(1));
    assert_eq!(menu.access_action(&vec![1, 0]).map(|f| f()), Some(3), "separators are not counted");
    assert!(menu.access_action(&vec![1, 1]).is_none(), "a disabled item is never chosen");
    assert!(menu.access_action(&vec![1]).is_none(), "a submenu is no leaf");
    assert!(menu.access_action(&vec![0, 0]).is_none(), "an item has no children");
    assert!(menu.access_action(&vec![2]).is_none());
    assert!(menu.access_action(&vec![]).is_none());
    // The leaf reached is the item its command id chooses.
    let commands = menu.command_ids();
    assert_eq!(menu.find_action(commands[1]).map(|f| f()), menu.access_action(&vec![1, 0]).map(|f| f()));
}

#[test]
fn builds_native_and_owner_drawn() {
    let mut menu = Menu::<Action>::new()
        .item("Open", None, || 1)
        .checked_item("Wrap", None, true, || 2)
        .radio_item("Left", None, true, || 3)
        .disabled_item("Disabled", None, || 4)
        .separator()
        .submenu("More", Menu::<Action>::new().item("Deep", None, || 5));
    assert!(!menu.is_owner_drawn(), "a menu not yet built is not owner-drawn");

    menu.mark_built(true, false);
    assert!(!menu.is_owner_drawn());
    assert_eq!(menu.bar_len(), 6);

    menu.mark_built(true, true);
    assert!(menu.is_owner_drawn());
    assert_eq!(menu.data_ids().len(), 7, "every node keeps its render id across rebuilds");
}
