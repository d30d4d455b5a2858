//! Verified core of a Fluent-style desktop widget toolkit: design tokens and
//! theme, menu trees and their keyboard navigation, popup open/close motion,
//! text editing buffers, list filtering, tables, trees, tab strips, toasts and
//! the ribbon's overflow layout. Rendering lives outside this crate; every
//! decision a widget takes is computed here and stated in contracts.

pub mod tokens;
pub mod theme;
pub mod menu_tree;
pub mod keys;
pub mod text;
pub mod popup;
pub mod menus;
pub mod tab_strip;
pub mod toast;
pub mod encoding;
pub mod text_input;
pub mod choice;
pub mod dropdown;
pub mod combobox;
pub mod command_palette;
pub mod tree;
pub mod data_table;
pub mod toolbar;
pub mod command;
pub mod settings_nav;
pub mod ribbon;
pub mod message_bar;
pub mod modal;
pub mod controls;
pub mod primitives;
pub mod text_edit;
pub mod assets;
