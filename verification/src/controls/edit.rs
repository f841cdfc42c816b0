//! A native `EDIT` field: single-line, multi-line or password.
//!
//! The field keeps its text in the native `CRLF` form a multi-line edit
//! stores; the app reads and writes `LF` text.

use vstd::prelude::*;

use crate::controls::control::{owned_control, AsControl, Control, HasText};
use crate::controls::edit_events::{command_message, edit_code, is_edit_notification, EditEvents, EN_CHANGE, EN_KILLFOCUS, EN_SETFOCUS};
use crate::controls::edit_text::{from_native, from_native_spec, to_native, to_native_spec};
use crate::controls::style::{WS_BORDER, WS_CHILD, WS_EX_CLIENTEDGE, WS_TABSTOP, WS_VISIBLE, WS_VSCROLL};
use crate::geometry::Rect;
use crate::hwnd::Hwnd;
use crate::message::Message;
use crate::units::{fits, px, Dip};

verus! {

/// `ES_MULTILINE`.
pub const ES_MULTILINE: u32 = 0x0004;
/// `ES_PASSWORD`: typed characters are masked.
pub const ES_PASSWORD: u32 = 0x0020;
/// `ES_AUTOVSCROLL`.
pub const ES_AUTOVSCROLL: u32 = 0x0040;
/// `ES_AUTOHSCROLL`.
pub const ES_AUTOHSCROLL: u32 = 0x0080;

/// The shape of an edit.
#[derive(Clone, Copy, Debug, PartialEq, Eq, Structural)]
pub enum EditKind {
    /// One line, scrolling horizontally.
    SingleLine,
    /// Several lines, wrapping and scrolling vertically.
    MultiLine,
    /// One masked line.
    Password,
}

/// The style bits a kind of edit adds to the common ones.
pub open spec fn kind_style(kind: EditKind) -> u32 {
    match kind {
        EditKind::SingleLine => ES_AUTOHSCROLL,
        EditKind::MultiLine => ES_MULTILINE | ES_AUTOVSCROLL | WS_VSCROLL,
        EditKind::Password => ES_PASSWORD | ES_AUTOHSCROLL,
    }
}

/// How many lines tall a kind of edit is by nature.
pub open spec fn kind_lines(kind: EditKind) -> int {
    match kind {
        EditKind::MultiLine => 4,
        _ => 1,
    }
}

/// The natural height of an edit of `kind` in a font `font_height` pixels
/// high at `dpi`: its lines (each at least a pixel) plus padding.
pub open spec fn edit_height(kind: EditKind, dpi: u32, font_height: i32) -> int {
    let line = if font_height < 1 { 1 } else { font_height as int };
    line * kind_lines(kind) + px(10, dpi)
}

/// A text-entry field, mapping its events to the app's message through
/// `events`.
pub struct Edit<C, S, G> {
    /// The field's window and bounds.
    pub control: Control,
    /// The app's mapping of its events.
    pub events: EditEvents<C, S, G>,
    /// Its shape.
    pub kind: EditKind,
    /// The text, in the native `CRLF` form.
    pub native_text: String,
    /// The placeholder shown while the field is empty.
    pub cue: String,
    /// Whether typing is refused.
    pub read_only: bool,
    /// Whether only digits can be typed (`ES_NUMBER`).
    pub number_only: bool,
    /// The most characters the field takes, when limited.
    pub max_length: Option<usize>,
    /// Whether a multi-line field wraps its lines.
    pub word_wrap: bool,
}

impl<C, S, G> Edit<C, S, G> {
    /// An empty field of `kind` in the child window `hwnd`, with the natural
    /// height for the UI font of `font_height` pixels at `dpi`. A multi-line
    /// field wraps by default.
    pub fn create(kind: EditKind, hwnd: Hwnd, dpi: u32, font_height: i32) -> (e: Edit<C, S, G>)
        requires
            fits(edit_height(kind, dpi, font_height)),
        ensures
            e.control == owned_control(
                hwnd,
                Rect { left: 0, top: 0, right: 0, bottom: edit_height(kind, dpi, font_height) as i32 },
            ),
            e.kind == kind,
            e.native_text@.len() == 0,
            e.cue@.len() == 0,
            !e.read_only && !e.number_only,
            e.max_length is None,
            e.word_wrap == (kind == EditKind::MultiLine),
            e.events.on_change is None && e.events.on_submit is None && e.events.on_focus is None,
    {
        let lines: i32 = match kind {
            EditKind::MultiLine => 4,
            _ => 1,
        };
        let line = if font_height < 1 { 1 } else { font_height };
        let padding = Dip::new(10).to_px(dpi).value();
        assert(line * lines + padding == edit_height(kind, dpi, font_height)) by (nonlinear_arith)
            requires
                line >= 1,
                lines == kind_lines(kind),
                line == (if font_height < 1 { 1 } else { font_height as int }),
                padding == px(10, dpi),
        {
        }
        assert(0 <= line * lines <= 4 * line) by (nonlinear_arith)
            requires
                line >= 1,
                1 <= lines <= 4,
        {
        }
        let height = line * lines + padding;
        Edit {
            control: Control::own(hwnd, Rect::new(0, 0, 0, height)),
            events: EditEvents::new(),
            kind,
            native_text: String::new(),
            cue: String::new(),
            read_only: false,
            number_only: false,
            max_length: None,
            word_wrap: match kind {
                EditKind::MultiLine => true,
                _ => false,
            },
        }
    }

    /// A single-line field.
    pub fn single_line(hwnd: Hwnd, dpi: u32, font_height: i32) -> (e: Edit<C, S, G>)
        requires
            fits(edit_height(EditKind::SingleLine, dpi, font_height)),
        ensures
            e.kind == EditKind::SingleLine,
            e.control.bounds.bottom == edit_height(EditKind::SingleLine, dpi, font_height),
            e.native_text@.len() == 0,
    {
        Self::create(EditKind::SingleLine, hwnd, dpi, font_height)
    }

    /// A multi-line field that wraps.
    pub fn multi_line(hwnd: Hwnd, dpi: u32, font_height: i32) -> (e: Edit<C, S, G>)
        requires
            fits(edit_height(EditKind::MultiLine, dpi, font_height)),
        ensures
            e.kind == EditKind::MultiLine,
            e.control.bounds.bottom == edit_height(EditKind::MultiLine, dpi, font_height),
            e.word_wrap,
            e.native_text@.len() == 0,
    {
        Self::create(EditKind::MultiLine, hwnd, dpi, font_height)
    }

    /// A password field: typed characters are masked.
    pub fn password(hwnd: Hwnd, dpi: u32, font_height: i32) -> (e: Edit<C, S, G>)
        requires
            fits(edit_height(EditKind::Password, dpi, font_height)),
        ensures
            e.kind == EditKind::Password,
            e.control.bounds.bottom == edit_height(EditKind::Password, dpi, font_height),
            e.native_text@.len() == 0,
    {
        Self::create(EditKind::Password, hwnd, dpi, font_height)
    }

    /// The window style the field is created with.
    pub fn style(&self) -> (style: u32)
        ensures
            style == (WS_CHILD | WS_VISIBLE | WS_TABSTOP | WS_BORDER | kind_style(self.kind)),
    {
        let extra = match self.kind {
            EditKind::SingleLine => ES_AUTOHSCROLL,
            EditKind::MultiLine => ES_MULTILINE | ES_AUTOVSCROLL | WS_VSCROLL,
            EditKind::Password => ES_PASSWORD | ES_AUTOHSCROLL,
        };
        WS_CHILD | WS_VISIBLE | WS_TABSTOP | WS_BORDER | extra
    }

    /// The extended window style: a client edge on a multi-line field only.
    pub fn ex_style(&self) -> (style: u32)
        ensures
            style == if self.kind == EditKind::MultiLine { WS_EX_CLIENTEDGE } else { 0 },
    {
        match self.kind {
            EditKind::MultiLine => WS_EX_CLIENTEDGE,
            _ => 0,
        }
    }

    /// Whether this is a multi-line field.
    pub fn is_multiline(&self) -> (b: bool)
        ensures
            b == (self.kind == EditKind::MultiLine),
    {
        match self.kind {
            EditKind::MultiLine => true,
            _ => false,
        }
    }

    /// Maps a text change to a message, given the new text.
    pub fn on_change(self, f: C) -> (e: Edit<C, S, G>)
        ensures
            e.events.on_change == Some(f),
            e.events.on_submit == self.events.on_submit,
            e.events.on_focus == self.events.on_focus,
            e.kind == self.kind,
            e.control == self.control,
            e.native_text@ == self.native_text@,
    {
        let Edit { control, events, kind, native_text, cue, read_only, number_only, max_length, word_wrap } = self;
        let EditEvents { on_change: _, on_submit, on_focus } = events;
        Edit {
            control,
            events: EditEvents { on_change: Some(f), on_submit, on_focus },
            kind,
            native_text,
            cue,
            read_only,
            number_only,
            max_length,
            word_wrap,
        }
    }

    /// Maps Enter on a single-line field to a message.
    pub fn on_submit(self, f: S) -> (e: Edit<C, S, G>)
        ensures
            e.events.on_submit == Some(f),
            e.events.on_change == self.events.on_change,
            e.events.on_focus == self.events.on_focus,
            e.kind == self.kind,
            e.control == self.control,
            e.native_text@ == self.native_text@,
    {
        let Edit { control, events, kind, native_text, cue, read_only, number_only, max_length, word_wrap } = self;
        let EditEvents { on_change, on_submit: _, on_focus } = events;
        Edit {
            control,
            events: EditEvents { on_change, on_submit: Some(f), on_focus },
            kind,
            native_text,
            cue,
            read_only,
            number_only,
            max_length,
            word_wrap,
        }
    }

    /// Maps a focus gain or loss to a message.
    pub fn on_focus(self, f: G) -> (e: Edit<C, S, G>)
        ensures
            e.events.on_focus == Some(f),
            e.events.on_change == self.events.on_change,
            e.events.on_submit == self.events.on_submit,
            e.kind == self.kind,
            e.control == self.control,
            e.native_text@ == self.native_text@,
    {
        let Edit { control, events, kind, native_text, cue, read_only, number_only, max_length, word_wrap } = self;
        let EditEvents { on_change, on_submit, on_focus: _ } = events;
        Edit {
            control,
            events: EditEvents { on_change, on_submit, on_focus: Some(f) },
            kind,
            native_text,
            cue,
            read_only,
            number_only,
            max_length,
            word_wrap,
        }
    }

    /// Shows `text` as a placeholder while the field is empty.
    pub fn set_cue(&mut self, text: &str)
        ensures
            final(self).cue@ == text@,
            final(self).native_text@ == old(self).native_text@,
            final(self).kind == old(self).kind,
            final(self).control == old(self).control,
            final(self).events == old(self).events,
    {
        self.cue = text.to_owned();
    }

    /// Sets read-only mode.
    pub fn set_read_only(&mut self, read_only: bool)
        ensures
            final(self).read_only == read_only,
            final(self).native_text@ == old(self).native_text@,
            final(self).kind == old(self).kind,
            final(self).control == old(self).control,
            final(self).events == old(self).events,
    {
        self.read_only = read_only;
    }

    /// Restricts input to digits.
    pub fn set_number_only(&mut self, number_only: bool)
        ensures
            final(self).number_only == number_only,
            final(self).native_text@ == old(self).native_text@,
            final(self).kind == old(self).kind,
            final(self).control == old(self).control,
            final(self).events == old(self).events,
    {
        self.number_only = number_only;
    }

    /// Limits the text to `length` characters.
    pub fn set_max_length(&mut self, length: usize)
        ensures
            final(self).max_length == Some(length),
            final(self).native_text@ == old(self).native_text@,
            final(self).kind == old(self).kind,
            final(self).control == old(self).control,
            final(self).events == old(self).events,
    {
        self.max_length = Some(length);
    }

    /// Turns word wrap on or off on a multi-line field.
    pub fn set_word_wrap(&mut self, wrap: bool)
        ensures
            final(self).word_wrap == wrap,
            final(self).native_text@ == old(self).native_text@,
            final(self).kind == old(self).kind,
            final(self).control == old(self).control,
            final(self).events == old(self).events,
    {
        self.word_wrap = wrap;
    }

    /// Shows `text` as a placeholder. Chainable.
    pub fn cue(self, text: &str) -> (e: Edit<C, S, G>)
        ensures
            e.cue@ == text@,
            e.native_text@ == self.native_text@,
            e.kind == self.kind,
            e.control == self.control,
    {
        let mut e = self;
        e.set_cue(text);
        e
    }

    /// Sets read-only mode. Chainable.
    pub fn read_only(self, read_only: bool) -> (e: Edit<C, S, G>)
        ensures
            e.read_only == read_only,
            e.native_text@ == self.native_text@,
            e.kind == self.kind,
            e.control == self.control,
    {
        let mut e = self;
        e.set_read_only(read_only);
        e
    }

    /// Restricts input to digits. Chainable.
    pub fn number_only(self, number_only: bool) -> (e: Edit<C, S, G>)
        ensures
            e.number_only == number_only,
            e.native_text@ == self.native_text@,
            e.kind == self.kind,
            e.control == self.control,
    {
        let mut e = self;
        e.set_number_only(number_only);
        e
    }

    /// Limits the text to `length` characters. Chainable.
    pub fn max_length(self, length: usize) -> (e: Edit<C, S, G>)
        ensures
            e.max_length == Some(length),
            e.native_text@ == self.native_text@,
            e.kind == self.kind,
            e.control == self.control,
    {
        let mut e = self;
        e.set_max_length(length);
        e
    }

    /// Turns word wrap on or off. Chainable.
    pub fn word_wrap(self, wrap: bool) -> (e: Edit<C, S, G>)
        ensures
            e.word_wrap == wrap,
            e.native_text@ == self.native_text@,
            e.kind == self.kind,
            e.control == self.control,
    {
        let mut e = self;
        e.set_word_wrap(wrap);
        e
    }

    /// Takes the text the native field now holds (after the user typed).
    pub fn set_native_text(&mut self, native: &str)
        ensures
            final(self).native_text@ == native@,
            final(self).kind == old(self).kind,
            final(self).control == old(self).control,
    {
        self.native_text = native.to_owned();
    }

    /// Maps `message` when it is one of this field's change or focus
    /// notifications; `on_change` receives the current text in `LF` form.
    pub fn command_message<M>(&self, message: &Message) -> (r: Option<Option<M>>)
        where
            C: Fn(&str) -> Option<M>,
            G: Fn(bool) -> Option<M>,
        requires
            self.events.on_change matches Some(f) ==> forall|s: &str| call_requires(f, (s,)),
            self.events.on_focus matches Some(f) ==> forall|b: bool| call_requires(f, (b,)),
        ensures
            !is_edit_notification(*message, self.control.hwnd) ==> r is None,
            is_edit_notification(*message, self.control.hwnd) ==> r is Some,
            edit_code(*message, self.control.hwnd) == Some(EN_CHANGE) ==> match self.events.on_change {
                Some(f) => exists|s: &str| s@ == from_native_spec(self.native_text@) && call_ensures(f, (s,), r->0),
                None => r->0 is None,
            },
            edit_code(*message, self.control.hwnd) == Some(EN_SETFOCUS) ==> match self.events.on_focus {
                Some(f) => call_ensures(f, (true,), r->0),
                None => r->0 is None,
            },
            edit_code(*message, self.control.hwnd) == Some(EN_KILLFOCUS) ==> match self.events.on_focus {
                Some(f) => call_ensures(f, (false,), r->0),
                None => r->0 is None,
            },
    {
        let stored = &self.native_text;
        let read = || -> (t: String)
            ensures
                t@ == from_native_spec(stored@),
            { from_native(stored.as_str()) };
        command_message(message, self.control.hwnd, read, &self.events)
    }

    /// The app message Enter raises: on a single-line (or password) field,
    /// `on_submit`'s answer; a multi-line field takes Enter as a newline and
    /// raises nothing.
    pub fn submit_message<M>(&self) -> (msg: Option<M>)
        where
            S: Fn() -> Option<M>,
        requires
            self.events.on_submit matches Some(f) ==> call_requires(f, ()),
        ensures
            self.kind == EditKind::MultiLine ==> msg is None,
            self.kind != EditKind::MultiLine ==> match self.events.on_submit {
                Some(f) => call_ensures(f, (), msg),
                None => msg is None,
            },
    {
        if self.is_multiline() {
            return None;
        }
        match &self.events.on_submit {
            Some(f) => f(),
            None => None,
        }
    }
}

impl<C, S, G> AsControl for Edit<C, S, G> {
    open spec fn control_view(&self) -> Control {
        self.control
    }

    fn control(&self) -> (c: &Control) {
        &self.control
    }
}

impl<C, S, G> HasText for Edit<C, S, G> {
    /// The text in `LF` form.
    open spec fn text_view(&self) -> Seq<char> {
        from_native_spec(self.native_text@)
    }

    /// A native field stores `CRLF`, so a lone `\r` comes back as a line
    /// break; text without one comes back unchanged.
    open spec fn shown_text(text: Seq<char>) -> Seq<char> {
        from_native_spec(to_native_spec(text))
    }

    fn text(&self) -> (t: String) {
        from_native(self.native_text.as_str())
    }

    /// Stores `text` in the native `CRLF` form.
    fn set_text(&mut self, text: &str) {
        self.native_text = to_native(text);
    }
}

} // verus!
