//! Widget library: geometry, layout, input state, draw command batching and
//! the decisions of windows and their event dispatching.
use vstd::prelude::*;

pub mod backend;
pub mod draw;
pub mod event;
pub mod fields;
pub mod font;
pub mod geometry;
pub mod image;
pub mod layout;
pub mod toplevel;
pub mod widget;
