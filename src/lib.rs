//! The input and render core of a small terminal text editor: key handling
//! with a saturating caret, the viewport with its welcome banner, a buffered
//! terminal adapter, and the run of the editor as a state machine whose
//! terminal work is performed by a driver.

pub mod command;
pub mod editor;
pub mod geometry;
pub mod input;
pub mod terminal;
pub mod view;
