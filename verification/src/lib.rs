use vstd::prelude::*;

pub mod asset;
pub mod game;
pub mod governance;
pub mod instruction;
pub mod key;
