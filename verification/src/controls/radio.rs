//! A typed radio group: one value per button, selected by value rather than
//! by index. Each option is an owner-drawn auto radio painted from theme
//! tokens.

use vstd::prelude::*;
use vstd::std_specs::cmp::PartialEqSpec;

use crate::color::Color;
use crate::controls::color_picker::BS_OWNERDRAW;
use crate::controls::control::{AsControl, Control, HasText};
use crate::controls::style::{WS_CHILD, WS_TABSTOP, WS_VISIBLE};
use crate::error::Error;
use crate::geometry::Rect;
use crate::hwnd::Hwnd;
use crate::message::{Command, CommandNotification, Message};
use crate::theme::Theme;
use crate::units::{fits, larger, px, Dip};

verus! {

/// `WS_GROUP`: the first button of a group starts the arrow-key cycle.
pub const WS_GROUP: u32 = 0x0002_0000;

/// The colours one option is painted with.
#[derive(Clone, Copy, Debug, PartialEq, Eq, Structural)]
pub struct RadioPaint {
    pub text: Color,
    pub text_disabled: Color,
    pub edge: Color,
    pub dot: Color,
    pub focus: Color,
    pub background: Color,
}

/// One paint of an option.
#[derive(Clone, Copy, Debug, PartialEq, Eq, Structural)]
pub struct RadioDraw {
    /// The option.
    pub index: usize,
    /// The device context to paint into.
    pub dc: isize,
    /// The option's rectangle.
    pub area: Rect,
    /// The raw `ODS_*` state.
    pub state: u32,
    /// Whether the option is the selected one.
    pub checked: bool,
    /// The colours.
    pub paint: RadioPaint,
}

/// The palette an option painted from `theme` uses.
pub open spec fn radio_paint(theme: Theme) -> RadioPaint {
    RadioPaint {
        text: theme.text,
        text_disabled: theme.text_disabled,
        edge: theme.text_secondary,
        dot: theme.accent,
        focus: theme.border_focused,
        background: theme.background,
    }
}

/// The window style of an option; the first one starts the group.
pub open spec fn option_style(first: bool) -> u32 {
    WS_CHILD | WS_VISIBLE | WS_TABSTOP | BS_OWNERDRAW | if first { WS_GROUP } else { 0 }
}

/// The window style of an option; the first one starts the group.
pub fn radio_style(first: bool) -> (style: u32)
    ensures
        style == option_style(first),
{
    let group = if first { WS_GROUP } else { 0 };
    WS_CHILD | WS_VISIBLE | WS_TABSTOP | BS_OWNERDRAW | group
}

/// The width every option gets when the widest label is `widest` pixels.
pub open spec fn option_width(dpi: u32, widest: int) -> int {
    larger(widest + px(28, dpi), px(64, dpi))
}

/// The height of one option row.
pub open spec fn option_row(dpi: u32, font_height: i32) -> int {
    larger(font_height + px(10, dpi), px(20, dpi))
}

/// The largest of `widths` (0 when there is none).
pub open spec fn widest(widths: Seq<i32>) -> int
    decreases widths.len(),
{
    if widths.len() == 0 {
        0
    } else if widths.len() == 1 {
        widths[0] as int
    } else {
        larger(widest(widths.drop_last()), widths.last() as int)
    }
}

/// The bounds of option `k`: options are stacked in rows separated by a
/// small gap, all as wide as the widest label needs.
pub open spec fn option_rect(dpi: u32, widths: Seq<i32>, font_height: i32, k: int) -> Rect {
    let row = option_row(dpi, font_height);
    let top = k * (row + px(2, dpi));
    Rect { left: 0, top: top as i32, right: option_width(dpi, widest(widths)) as i32, bottom: (top + row) as i32 }
}

/// The bounds of the options whose labels measure `widths` pixels, in a
/// font `font_height` pixels high at `dpi`.
pub fn option_bounds(dpi: u32, widths: &Vec<i32>, font_height: i32) -> (bounds: Vec<Rect>)
    requires
        fits(widest(widths@) + px(28, dpi)),
        fits(font_height + px(10, dpi)),
        fits(option_row(dpi, font_height) + px(2, dpi)),
        widths@.len() * (option_row(dpi, font_height) + px(2, dpi)) + option_row(dpi, font_height) <= i32::MAX,
        widths@.len() <= i32::MAX,
    ensures
        bounds@.len() == widths@.len(),
        forall|k: int| 0 <= k < bounds@.len() ==> #[trigger] bounds@[k] == option_rect(dpi, widths@, font_height, k),
{
    let mut most: i64 = 0;
    let mut i: usize = 0;
    while i < widths.len()
        invariant
            i <= widths@.len(),
            most == widest(widths@.take(i as int)),
            i32::MIN <= most <= i32::MAX,
        decreases widths@.len() - i,
    {
        proof {
            let after = widths@.take(i as int + 1);
            assert(after.drop_last() =~= widths@.take(i as int));
            assert(after.last() == widths@[i as int]);
            if i == 0 {
                assert(after.len() == 1);
            }
        }
        let w = widths[i] as i64;
        if i == 0 || w > most {
            most = w;
        }
        i = i + 1;
    }
    assert(widths@.take(widths@.len() as int) =~= widths@);
    let padded = most + Dip::new(28).to_px(dpi).value() as i64;
    let min_width = Dip::new(64).to_px(dpi).value() as i64;
    let width = if padded < min_width { min_width } else { padded };
    let tall = font_height as i64 + Dip::new(10).to_px(dpi).value() as i64;
    let min_row = Dip::new(20).to_px(dpi).value() as i64;
    let row = if tall < min_row { min_row } else { tall };
    let gap = Dip::new(2).to_px(dpi).value() as i64;
    let mut bounds: Vec<Rect> = Vec::new();
    let mut k: usize = 0;
    while k < widths.len()
        invariant
            k <= widths@.len(),
            bounds@.len() == k,
            width == option_width(dpi, widest(widths@)),
            row == option_row(dpi, font_height),
            gap == px(2, dpi),
            0 <= row,
            0 <= gap,
            fits(row + gap),
            widths@.len() * (row + gap) + row <= i32::MAX,
            widths@.len() <= i32::MAX,
            forall|j: int| 0 <= j < k ==> #[trigger] bounds@[j] == option_rect(dpi, widths@, font_height, j),
        decreases widths@.len() - k,
    {
        let kk = k as i64;
        assert(0 <= kk * (row + gap) <= widths@.len() * (row + gap)) by (nonlinear_arith)
            requires
                0 <= kk <= widths@.len(),
                0 <= row + gap,
        ;
        let top = kk * (row + gap);
        bounds.push(Rect::new(0, top as i32, width as i32, (top + row) as i32));
        k = k + 1;
    }
    bounds
}

/// One owner-drawn radio button of a [`RadioGroup`].
pub struct RadioOption {
    /// The button's window and bounds.
    pub control: Control,
    /// Its label.
    pub label: String,
    /// The theme it is painted from.
    pub theme: Theme,
}

impl RadioOption {
    /// Repaints from `theme`.
    pub fn apply_theme(&mut self, theme: Theme)
        ensures
            final(self).theme == theme,
            final(self).control == old(self).control,
            final(self).label@ == old(self).label@,
    {
        self.theme = theme;
    }
}

impl AsControl for RadioOption {
    open spec fn control_view(&self) -> Control {
        self.control
    }

    fn control(&self) -> (c: &Control) {
        &self.control
    }
}

impl HasText for RadioOption {
    open spec fn text_view(&self) -> Seq<char> {
        self.label@
    }

    open spec fn shown_text(text: Seq<char>) -> Seq<char> {
        text
    }

    fn text(&self) -> (t: String) {
        self.label.clone()
    }

    fn set_text(&mut self, text: &str) {
        self.label = text.to_owned();
    }
}

/// A column of radio buttons carrying typed values; selection is held by
/// value, not by index.
pub struct RadioGroup<T, F> {
    /// The buttons, in order.
    pub options: Vec<RadioOption>,
    /// One value per button.
    pub values: Vec<T>,
    /// The selected button.
    pub selected: Option<usize>,
    /// Maps a selection change to the app's message, given the new value.
    pub on_select: Option<F>,
}

impl<T, F> RadioGroup<T, F> {
    /// Whether there is one value per button, at least one of each, and the
    /// selection names a button.
    pub open spec fn wf(&self) -> bool {
        &&& self.options@.len() == self.values@.len()
        &&& self.options@.len() > 0
        &&& self.selected matches Some(i) ==> i < self.options@.len()
    }

    /// The group of `options` carrying `values`, the first one selected.
    /// A group needs at least one option and exactly one value per option;
    /// otherwise it cannot be created.
    pub fn new(options: Vec<RadioOption>, values: Vec<T>) -> (g: Result<RadioGroup<T, F>, Error>)
        ensures
            (options@.len() == 0 || options@.len() != values@.len()) ==> (g matches Err(Error::CreateControl(name))
                && name@ == "RadioGroup"@),
            options@.len() > 0 && options@.len() == values@.len() ==> (g matches Ok(group) && {
                &&& group.wf()
                &&& group.options@ == options@
                &&& group.values@ == values@
                &&& group.selected == Some(0usize)
                &&& group.on_select is None
            }),
    {
        if options.len() == 0 || options.len() != values.len() {
            return Err(Error::CreateControl("RadioGroup".to_owned()));
        }
        Ok(RadioGroup { options, values, selected: Some(0), on_select: None })
    }

    /// Maps a selection change to an app message, receiving the new value.
    pub fn on_select(self, f: F) -> (g: RadioGroup<T, F>)
        requires
            self.wf(),
        ensures
            g.wf(),
            g.on_select == Some(f),
            g.options@ == self.options@,
            g.values@ == self.values@,
            g.selected == self.selected,
    {
        RadioGroup { on_select: Some(f), ..self }
    }

    /// The buttons, in order.
    pub fn options(&self) -> (o: &Vec<RadioOption>)
        ensures
            o@ == self.options@,
    {
        &self.options
    }

    /// The selected index, if any.
    pub fn selected_index(&self) -> (i: Option<usize>)
        ensures
            i == self.selected,
    {
        self.selected
    }

    /// The selected value, cloned.
    pub fn selected_value(&self) -> (v: Option<T>)
        where
            T: Clone,
        requires
            self.wf(),
        ensures
            match self.selected {
                Some(i) => v matches Some(c) && cloned(self.values@[i as int], c),
                None => v is None,
            },
    {
        match self.selected {
            Some(index) => Some(self.values[index].clone()),
            None => None,
        }
    }

    /// Selects the button at `index`. Returns whether it exists.
    pub fn set_selected_index(&mut self, index: usize) -> (found: bool)
        requires
            old(self).wf(),
        ensures
            final(self).wf(),
            found == (index < old(self).options@.len()),
            found ==> final(self).selected == Some(index),
            !found ==> final(self).selected == old(self).selected,
            final(self).options@ == old(self).options@,
            final(self).values@ == old(self).values@,
            final(self).on_select == old(self).on_select,
    {
        if index >= self.values.len() {
            return false;
        }
        self.selected = Some(index);
        true
    }

    /// Selects the first button carrying a value equal to `value`. Returns
    /// whether there is one.
    pub fn set_selected(&mut self, value: &T) -> (found: bool)
        where
            T: PartialEq,
        requires
            old(self).wf(),
            T::obeys_eq_spec(),
        ensures
            final(self).wf(),
            found == exists|k: int| 0 <= k < old(self).values@.len() && (#[trigger] old(self).values@[k]).eq_spec(value),
            found ==> (final(self).selected matches Some(i) && old(self).values@[i as int].eq_spec(value)
                && forall|j: int| 0 <= j < i ==> !(#[trigger] old(self).values@[j]).eq_spec(value)),
            !found ==> final(self).selected == old(self).selected,
            final(self).options@ == old(self).options@,
            final(self).values@ == old(self).values@,
            final(self).on_select == old(self).on_select,
    {
        let mut i: usize = 0;
        while i < self.values.len()
            invariant
                T::obeys_eq_spec(),
                old(self).wf(),
                self.options@ == old(self).options@,
                self.values@ == old(self).values@,
                self.selected == old(self).selected,
                self.on_select == old(self).on_select,
                i <= self.values@.len(),
                forall|j: int| 0 <= j < i ==> !(#[trigger] self.values@[j]).eq_spec(value),
            decreases self.values@.len() - i,
        {
            if self.values[i].eq(value) {
                self.selected = Some(i);
                return true;
            }
            i = i + 1;
        }
        false
    }

    /// Selects `value` initially. Chainable.
    pub fn selected(self, value: &T) -> (g: RadioGroup<T, F>)
        where
            T: PartialEq,
        requires
            self.wf(),
            T::obeys_eq_spec(),
        ensures
            g.wf(),
            g.options@ == self.options@,
            g.values@ == self.values@,
            (exists|k: int| 0 <= k < self.values@.len() && (#[trigger] self.values@[k]).eq_spec(value)) ==> (g.selected matches Some(i)
                && self.values@[i as int].eq_spec(value)),
            !(exists|k: int| 0 <= k < self.values@.len() && (#[trigger] self.values@[k]).eq_spec(value)) ==> g.selected == self.selected,
    {
        let mut g = self;
        g.set_selected(value);
        g
    }

    /// A click on the button at `index`: it becomes the selected one and its
    /// value is reported through `on_select`. `None` when there is no such
    /// button.
    pub fn click<M>(&mut self, index: usize) -> (r: Option<Option<M>>)
        where
            F: Fn(&T) -> Option<M>,
        requires
            old(self).wf(),
            old(self).on_select matches Some(f) ==> forall|v: &T| call_requires(f, (v,)),
        ensures
            final(self).wf(),
            index >= old(self).options@.len() ==> r is None && final(self).selected == old(self).selected,
            index < old(self).options@.len() ==> {
                &&& final(self).selected == Some(index)
                &&& (r matches Some(msg) && match old(self).on_select {
                    Some(f) => call_ensures(f, (&old(self).values@[index as int],), msg),
                    None => msg is None,
                })
            },
            final(self).options@ == old(self).options@,
            final(self).values@ == old(self).values@,
            final(self).on_select == old(self).on_select,
    {
        if index >= self.values.len() {
            return None;
        }
        self.selected = Some(index);
        let msg = match &self.on_select {
            Some(f) => f(&self.values[index]),
            None => None,
        };
        Some(msg)
    }

    /// The button a click `message` comes from, if it is one of the group's.
    pub fn clicked_option(&self, message: &Message) -> (index: Option<usize>)
        ensures
            match index {
                Some(k) => k < self.options@.len() && (message matches Message::Command(Command { control: Some(c), notification: CommandNotification::Clicked, .. })
                    && c == self.options@[k as int].control.hwnd),
                None => !(exists|k: int| 0 <= k < self.options@.len() && (message matches Message::Command(Command { control: Some(c), notification: CommandNotification::Clicked, .. })
                    && c == #[trigger] self.options@[k].control.hwnd)),
            },
    {
        let from = match message {
            Message::Command(Command { control: Some(c), notification: CommandNotification::Clicked, .. }) => *c,
            _ => {
                return None;
            },
        };
        let mut k: usize = 0;
        while k < self.options.len()
            invariant
                k <= self.options@.len(),
                message matches Message::Command(Command { control: Some(c), notification: CommandNotification::Clicked, .. }) && c == from,
                forall|j: int| 0 <= j < k ==> (#[trigger] self.options@[j]).control.hwnd != from,
            decreases self.options@.len() - k,
        {
            if self.options[k].control.hwnd == from {
                return Some(k);
            }
            k = k + 1;
        }
        None
    }

    /// The paint `message` asks for, when it is the `WM_DRAWITEM` of one of
    /// the group's buttons: checked when it is the selected one, in its
    /// theme's colours.
    pub fn draw_request(&self, message: &Message) -> (draw: Option<RadioDraw>)
        ensures
            match draw {
                Some(d) => d.index < self.options@.len() && (message matches Message::DrawItem { control, dc, area, state }
                    && control == self.options@[d.index as int].control.hwnd && d.dc == dc && d.area == area
                    && d.state == state) && d.checked == (self.selected == Some(d.index))
                    && d.paint == radio_paint(self.options@[d.index as int].theme),
                None => !(exists|k: int| 0 <= k < self.options@.len() && (message matches Message::DrawItem { control, .. }
                    && control == #[trigger] self.options@[k].control.hwnd)),
            },
    {
        let (from, dc, area, state) = match message {
            Message::DrawItem { control, dc, area, state } => (*control, *dc, *area, *state),
            _ => {
                return None;
            },
        };
        let mut k: usize = 0;
        while k < self.options.len()
            invariant
                k <= self.options@.len(),
                message matches Message::DrawItem { control, dc: d, area: a, state: s } && control == from && d == dc && a == area && s == state,
                forall|j: int| 0 <= j < k ==> (#[trigger] self.options@[j]).control.hwnd != from,
            decreases self.options@.len() - k,
        {
            if self.options[k].control.hwnd == from {
                let theme = self.options[k].theme;
                let checked = match self.selected {
                    Some(s) => s == k,
                    None => false,
                };
                return Some(
                    RadioDraw {
                        index: k,
                        dc,
                        area,
                        state,
                        checked,
                        paint: RadioPaint {
                            text: theme.text,
                            text_disabled: theme.text_disabled,
                            edge: theme.text_secondary,
                            dot: theme.accent,
                            focus: theme.border_focused,
                            background: theme.background,
                        },
                    },
                );
            }
            k = k + 1;
        }
        None
    }

    /// Enables or disables every button.
    pub fn set_enabled(&mut self, enabled: bool)
        requires
            old(self).wf(),
        ensures
            final(self).wf(),
            final(self).options@.len() == old(self).options@.len(),
            forall|k: int| 0 <= k < final(self).options@.len() ==> (#[trigger] final(self).options@[k]).control == (Control {
                enabled,
                ..old(self).options@[k].control
            }) && final(self).options@[k].label == old(self).options@[k].label,
            final(self).values@ == old(self).values@,
            final(self).selected == old(self).selected,
    {
        let mut k: usize = 0;
        while k < self.options.len()
            invariant
                k <= self.options@.len(),
                self.options@.len() == old(self).options@.len(),
                self.values@ == old(self).values@,
                self.selected == old(self).selected,
                old(self).wf(),
                forall|j: int| 0 <= j < k ==> (#[trigger] self.options@[j]).control == (Control {
                    enabled,
                    ..old(self).options@[j].control
                }) && self.options@[j].label == old(self).options@[j].label,
                forall|j: int| k <= j < self.options@.len() ==> #[trigger] self.options@[j] == old(self).options@[j],
            decreases self.options@.len() - k,
        {
            let mut option = self.options.remove(k);
            option.control.enabled = enabled;
            self.options.insert(k, option);
            k = k + 1;
        }
    }

    /// Shows or hides every button.
    pub fn set_visible(&mut self, visible: bool)
        requires
            old(self).wf(),
        ensures
            final(self).wf(),
            final(self).options@.len() == old(self).options@.len(),
            forall|k: int| 0 <= k < final(self).options@.len() ==> (#[trigger] final(self).options@[k]).control == (Control {
                visible,
                ..old(self).options@[k].control
            }) && final(self).options@[k].label == old(self).options@[k].label,
            final(self).values@ == old(self).values@,
            final(self).selected == old(self).selected,
    {
        let mut k: usize = 0;
        while k < self.options.len()
            invariant
                k <= self.options@.len(),
                self.options@.len() == old(self).options@.len(),
                self.values@ == old(self).values@,
                self.selected == old(self).selected,
                old(self).wf(),
                forall|j: int| 0 <= j < k ==> (#[trigger] self.options@[j]).control == (Control {
                    visible,
                    ..old(self).options@[j].control
                }) && self.options@[j].label == old(self).options@[j].label,
                forall|j: int| k <= j < self.options@.len() ==> #[trigger] self.options@[j] == old(self).options@[j],
            decreases self.options@.len() - k,
        {
            let mut option = self.options.remove(k);
            option.control.visible = visible;
            self.options.insert(k, option);
            k = k + 1;
        }
    }

    /// The button to give the keyboard focus: the selected one, or the
    /// first.
    pub fn focus(&self) -> (hwnd: Hwnd)
        requires
            self.wf(),
        ensures
            hwnd == self.options@[match self.selected {
                Some(i) => i as int,
                None => 0,
            }].control.hwnd,
    {
        let index = match self.selected {
            Some(i) => i,
            None => 0,
        };
        self.options[index].control.hwnd
    }
}

} // verus!
