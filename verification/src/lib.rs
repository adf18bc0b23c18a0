use vstd::prelude::*;

pub mod app;
pub mod event;
pub mod laws;
pub mod model;
pub mod pacman;
pub mod tab;
pub mod text;
pub mod ui;
