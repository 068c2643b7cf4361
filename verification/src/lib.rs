//! The core of a terminal menu shell: the menu model, the decoding of keys
//! into commands, the projection of the menu into styled rows, and the state
//! machine that sequences terminal effects around them.

pub mod frame;
pub mod input;
pub mod menu_item;
pub mod theorems;
pub mod ui;
