//! The widget layer: each control's model, layout arithmetic and event
//! mapping.

pub mod button;
pub mod checkbox;
pub mod combobox;
pub mod color_picker;
pub mod combobox_events;
pub mod control;
pub mod custom;
pub mod combobox_model;
pub mod edit;
pub mod edit_events;
pub mod edit_text;
pub mod flow_text;
pub mod grid_view;
pub mod groupbox;
pub mod label;
pub mod listview;
pub mod menu;
pub mod panel;
pub mod progressbar;
pub mod progressbar_theme;
pub mod radio;
pub mod scrollview;
pub mod style;
