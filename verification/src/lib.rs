//! The state, decisions and texts of a chat panel, apart from any window
//! toolkit.
//!
//! A [`panel::ChatPanel`] hears of what happens by [`effect::Signal`]s, and
//! answers with [`effect::Effect`]s that ask something of the world around it.
//! What it shows is a tree of [`element::Element`]s.

pub mod actions;
pub mod answer_laws;
pub mod calendar;
pub mod dock;
pub mod effect;
pub mod element;
pub mod label_laws;
pub mod list_laws;
pub mod moment;
pub mod numerals;
pub mod panel;
pub mod panel_laws;
pub mod reading_laws;
pub mod render;
pub mod render_laws;
pub mod start_laws;
pub mod timestamp;

pub use actions::init;
pub use dock::Event;
pub use panel::ChatPanel;
