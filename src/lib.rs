//! Animation values bound to scene-node properties, the node container they are
//! written into, and the undoable terrain editing commands.
//!
//! All real-number arithmetic is delegated to a [`value::Real`] implementation; the
//! library itself proves the structural rules: which values combine, which
//! bindings match, which properties get written, and how the terrain edits undo.

pub mod material;
pub mod node;
pub mod terrain;
pub mod value;
