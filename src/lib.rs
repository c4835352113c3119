//! Resource rules of a spice-trading card game: spice cubes and their
//! upgrade ladder, spice amounts with checked arithmetic, a caravan of
//! bounded capacity, and the cards that grant or cost spices.

pub mod cards;
pub mod errors;
pub mod player;
pub mod spice;

pub use errors::GameErrors;
pub use spice::SpiceCube;
