//! Core logic of a card-game board prototype.
//!
//! A battle board ("case") is laid out as a grid of zones; playing cards are
//! rounded-rectangle solids that the player can hover, drag, and drop onto a
//! zone, after which a confirmation dialog either settles the card onto the
//! zone through a multi-step animation or leaves it where it came from.
//!
//! The host renderer and its scene graph are deliberately kept outside this
//! crate.  Everything here is plain data and decisions: geometry is expressed
//! in integer milli-units (thousandths of a world unit), rotations as whole
//! eighth turns, and animations as value-level plans that a host can replay.

pub mod card_mesh;
pub mod cards;
pub mod cases;
pub mod color;
pub mod effects;
pub mod geom;
pub mod popup;
pub mod tween;
