//! The world in memory: every system and every player, each under its
//! identifier.

use crate::error::Error;
use crate::identity::{is_random_uuid, new_uuid};
use crate::world::body::Body;
use crate::world::player::Player;
use crate::world::system::System;
use crate::world::temporal::Temporal;
use std::collections::HashMap;
use vstd::prelude::*;
use vstd::std_specs::iter::IteratorSpec;

verus! {

broadcast use vstd::std_specs::hash::group_hash_axioms;

/// The systems and the players, each under its identifier, and the
/// namespace that prefixes every key of theirs in the key-value store.
pub struct Galaxy {
    pub systems: HashMap<u128, System>,
    pub players: HashMap<u128, Player>,
    pub db_name: String,
}

/// The world store as a value.
pub struct GalaxyView {
    pub systems: Map<u128, System>,
    pub players: Map<u128, Player>,
    pub db_name: Seq<char>,
}

impl GalaxyView {
    /// The world with `system` in it under `uuid`.
    pub open spec fn with_system(self, uuid: u128, system: System) -> GalaxyView {
        GalaxyView { systems: self.systems.insert(uuid, system), ..self }
    }

    /// The world with `player` in it under `uuid`.
    pub open spec fn with_player(self, uuid: u128, player: Player) -> GalaxyView {
        GalaxyView { players: self.players.insert(uuid, player), ..self }
    }

    /// The world with the systems `systems`.
    pub open spec fn with_systems(self, systems: Map<u128, System>) -> GalaxyView {
        GalaxyView { systems, ..self }
    }
}

impl View for Galaxy {
    type V = GalaxyView;

    open spec fn view(&self) -> GalaxyView {
        GalaxyView { systems: self.systems@, players: self.players@, db_name: self.db_name@ }
    }
}

/// The identifiers under which a map holds something, each once.
pub(crate) fn uuids<T>(map: &HashMap<u128, T>) -> (uuids: Vec<u128>)
    ensures
        uuids@.no_duplicates(),
        uuids@.to_set() == map@.dom(),
{
    let mut uuids: Vec<u128> = Vec::new();
    let ghost all = map.keys().remaining();
    for uuid in it: map.keys()
        invariant
            it.seq() == all,
            uuids@ == all.unref().take(it.index()),
    {
        uuids.push(*uuid);
    }
    proof {
        assert(uuids@ =~= all.unref());
    }
    uuids
}

impl Galaxy {
    /// An empty world whose keys are prefixed with `db_name`.
    pub fn new(db_name: String) -> (galaxy: Galaxy)
        ensures
            galaxy@ == (GalaxyView {
                systems: Map::empty(),
                players: Map::empty(),
                db_name: db_name@,
            }),
    {
        Galaxy { systems: HashMap::new(), players: HashMap::new(), db_name }
    }

    /// Takes a system in under a newly drawn identifier and returns the
    /// identifier. Nothing is stored outside memory. The identifier is not
    /// compared with those in use: a system that had it is replaced.
    pub fn add_system(&mut self, system: System) -> (uuid: u128)
        ensures
            is_random_uuid(uuid),
            final(self)@ == old(self)@.with_system(uuid, system),
    {
        let uuid = new_uuid();
        self.systems.insert(uuid, system);
        uuid
    }

    /// Takes a player in under a newly drawn identifier and returns the
    /// identifier. Nothing is stored outside memory. The identifier is not
    /// compared with those in use: a player who had it is replaced.
    pub fn add_player(&mut self, player: Player) -> (uuid: u128)
        ensures
            is_random_uuid(uuid),
            final(self)@ == old(self)@.with_player(uuid, player),
    {
        let uuid = new_uuid();
        self.players.insert(uuid, player);
        uuid
    }

    /// Whether `after` are the systems `before` once they were updated with
    /// `advance`, in the order `order`, with the outcomes `outcomes` for
    /// their bodies: each system is updated once.
    pub open spec fn updated<A: Fn(&Body) -> Result<Body, Error>>(
        before: Map<u128, System>,
        advance: A,
        order: Seq<u128>,
        outcomes: Seq<Seq<Result<Body, Error>>>,
        after: Map<u128, System>,
    ) -> bool {
        &&& order.no_duplicates()
        &&& order.to_set() == before.dom()
        &&& after.dom() == before.dom()
        &&& outcomes.len() == order.len()
        &&& forall|i: int|
            0 <= i < order.len() ==> System::updated(
                before[order[i]],
                advance,
                #[trigger] outcomes[i],
                after[order[i]],
            )
    }
}

impl Temporal for Galaxy {
    /// Advances the world by updating each of its systems with `advance`
    /// ([`System::update`]), in no particular order. A system's failure does
    /// not keep the others from being updated: every system is updated, and
    /// the first failure, if there was one, is the world's.
    fn update<A: Fn(&Body) -> Result<Body, Error>>(&mut self, advance: &A) -> (done: Result<
        (),
        Error,
    >)
        ensures
            final(self)@ == old(self)@.with_systems(final(self)@.systems),
            exists|order: Seq<u128>, outcomes: Seq<Seq<Result<Body, Error>>>| #[trigger]
                Self::updated(old(self)@.systems, *advance, order, outcomes, final(self)@.systems)
                    && done == System::outcome(
                    outcomes.map_values(
                        |of_system: Seq<Result<Body, Error>>| System::outcome(of_system),
                    ),
                ),
    {
        let order = uuids(&self.systems);
        let mut done: Result<(), Error> = Ok(());
        let ghost mut outcomes: Seq<Seq<Result<Body, Error>>> = Seq::empty();
        let ghost summed = |of_system: Seq<Result<Body, Error>>| System::outcome(of_system);
        let mut at: usize = 0;
        while at < order.len()
            invariant
                forall|body: &Body| advance.requires((body,)),
                self@ == old(self)@.with_systems(self@.systems),
                order@.no_duplicates(),
                order@.to_set() == old(self).systems@.dom(),
                self.systems@.dom() == old(self).systems@.dom(),
                at <= order@.len(),
                outcomes.len() == at,
                summed == |of_system: Seq<Result<Body, Error>>| System::outcome(of_system),
                forall|i: int|
                    at <= i < order@.len() ==> self.systems@[#[trigger] order@[i]] == old(
                        self,
                    ).systems@[order@[i]],
                forall|i: int|
                    0 <= i < at ==> System::updated(
                        old(self).systems@[order@[i]],
                        *advance,
                        #[trigger] outcomes[i],
                        self.systems@[order@[i]],
                    ),
                done == System::outcome(outcomes.map_values(summed)),
            decreases order@.len() - at,
        {
            let uuid = order[at];
            let ghost before = self.systems@;
            if let Some(system) = self.systems.remove(&uuid) {
                let mut system = system;
                let updated = system.update(advance);
                if done.is_ok() {
                    done = updated;
                }
                self.systems.insert(uuid, system);
                proof {
                    let of_system = choose|of_system: Seq<Result<Body, Error>>| #[trigger]
                        System::updated(before[uuid], *advance, of_system, system) && updated
                            == System::outcome(of_system);
                    assert(outcomes.push(of_system).map_values(summed).drop_last()
                        =~= outcomes.map_values(summed));
                    outcomes = outcomes.push(of_system);
                }
            }
            at = at + 1;
        }
        proof {
            assert(Self::updated(old(self).systems@, *advance, order@, outcomes, self.systems@));
        }
        done
    }
}

} // verus!
