//! The simulated world: bodies, the systems that own them, and players.

pub mod body;
pub mod galaxy;
pub mod keys;
pub mod persistence;
pub mod player;
pub mod records;
pub mod system;
pub mod temporal;
pub mod vector;
