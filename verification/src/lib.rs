use vstd::prelude::*;

pub mod clicker;
pub mod config;
pub mod config_laws;
pub mod hotkey;
pub mod input;
pub mod key_laws;
pub mod keybind;
pub mod mouse_hook;
pub mod named_key_laws;
pub mod runtime;
pub mod text;
pub mod ui;
pub mod win;

verus! {

} // verus!
