use vstd::prelude::*;

pub mod action;
pub mod char_info;
pub mod character;
pub mod errors;
pub mod events;
pub mod gameinfo;
pub mod responsecode;
pub mod server;
pub mod task;
