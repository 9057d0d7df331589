//! A native application menu bar kept as an owned tree of menus and items,
//! with keyboard-accelerator modifiers, lookup of items by integer tag, and
//! the resolution of a menu activation to the one action that it runs.

pub mod event;
pub mod menu;
pub mod modifier;
