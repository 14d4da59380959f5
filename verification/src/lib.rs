//! Core of a GIF picker for the terminal: the state of the picker and its keymap,
//! paging, the preview cache, the favorites and their store, and what is asked
//! of the search providers and the favorites server.
//!
//! Nothing here reads or writes: what has to be fetched, run or drawn is
//! described by plain values, and so is what came of it.

pub mod actions;
pub mod app;
pub mod clipboard;
pub mod config;
pub mod decode;
pub mod draw;
pub mod encode;
pub mod favs;
pub mod geometry;
pub mod grid;
pub mod item;
pub mod keys;
pub mod laws;
pub mod layout;
pub mod lines;
pub mod pager;
pub mod preview;
pub mod providers;
pub mod screen;
pub mod session;
pub mod store;
pub mod text;
pub mod work;
