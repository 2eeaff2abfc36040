//! A multiplayer world server's verified core: the simulated world, the
//! world store's decisions about its persistence collaborator, and the
//! orchestrator that carries every connection from login to removal.
//!
//! The library performs no input or output. Whatever a socket, the key-value
//! store or a decoder answered reaches it as a plain value, and whatever has
//! to be sent or stored leaves it as one. What only a caller can compute,
//! the record of a system or a player and the arithmetic of motion, it is
//! handed as a function.

pub mod chance;
pub mod chunk;
pub mod console;
pub mod error;
pub mod game_server;
pub mod identity;
pub mod player_client;
pub mod text;
pub mod world;

pub use error::Error;
pub use game_server::ClientMessage;
pub use game_server::GameServer;
pub use game_server::Login;
pub use world::galaxy::Galaxy;
use vstd::prelude::*;

verus! {

/// Galactic coordinates are whole parsecs.
pub type GalaxyCoordsRepr = i16;

/// Offsets inside a parsec are whole astronomical units.
pub type GalaxyOffsetRepr = i32;

/// Positions inside a system are single-precision metres, carried as the 32
/// bits of their IEEE 754 encoding.
pub type SystemCoordsRepr = u32;

/// What the library's fallible operations return.
pub type Result<T> = core::result::Result<T, crate::error::Error>;

} // verus!
