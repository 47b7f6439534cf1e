//! Editable text: selections, boundaries between characters, and the editor.

pub mod boundary;
pub mod edit;
pub mod segment;
pub mod selection;
