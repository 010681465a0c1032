//! ChipTUI's verified core: the application state behind a terminal UI for
//! microcontroller projects, and every decision a key, a click, a tick or a
//! finished process leads to.
//!
//! Nothing in here performs work. A handler moves the state and appends
//! [`effect::Effect`]s --- spawn this, ask the browser for that --- which the
//! shell around the library carries out, reporting back through the reply
//! methods of [`app::App`].

use vstd::prelude::*;

pub mod app;
pub mod backend;
pub mod effect;
pub mod geometry;
pub mod input;
pub mod logs;
pub mod overlay;
pub mod panels;
pub mod text;
pub mod text_laws;
pub mod theme;

verus! {

}
