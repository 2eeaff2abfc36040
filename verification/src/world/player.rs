//! Players.

use crate::world::vector::Vector3;
use crate::SystemCoordsRepr;
use vstd::prelude::*;

verus! {

/// A player: where they are inside the system they observe, the nickname
/// they log in with, the system that was made for them, and the system they
/// observe now.
#[derive(Clone, Debug)]
pub struct Player {
    pub coords: Vector3<SystemCoordsRepr>,
    pub nickname: String,
    pub own_system_uuid: u128,
    pub current_system_uuid: u128,
}

impl Player {
    /// A player who owns the system `system_uuid` and observes it.
    pub fn new(coords: Vector3<SystemCoordsRepr>, nickname: String, system_uuid: u128) -> (player:
        Player)
        ensures
            player == (Player {
                coords,
                nickname,
                own_system_uuid: system_uuid,
                current_system_uuid: system_uuid,
            }),
    {
        Player { coords, nickname, own_system_uuid: system_uuid, current_system_uuid: system_uuid }
    }
}

} // verus!
