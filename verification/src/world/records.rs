//! The world store's decisions about what the key-value store holds: what
//! is taken in of what was found there, and what is to be written or
//! deleted.
//!
//! The store itself is somebody else's: a caller asks it and hands the
//! answers in, and carries out the writes and deletions that come out.

use crate::error::Error;
use crate::identity::{read_uuid, reads_back, uuid_parse, uuid_text, write_uuid};
use crate::text::starts_with;
use crate::world::galaxy::Galaxy;
use crate::world::player::Player;
use crate::world::system::System;
use vstd::prelude::*;
use vstd::std_specs::iter::IteratorSpec;
use vstd::string::StringExecFns;

verus! {

broadcast use vstd::std_specs::hash::group_hash_axioms;

impl Galaxy {
    /// The systems after the records found under the systems' keys were
    /// taken in, one after the other: a record is taken in under the
    /// identifier that its key names, and passed over where the key names
    /// none or the record could not be read.
    pub open spec fn systems_loaded(
        systems: Map<u128, System>,
        found: Seq<(String, Option<System>)>,
    ) -> Map<u128, System>
        decreases found.len(),
    {
        if found.len() == 0 {
            systems
        } else {
            let before = Self::systems_loaded(systems, found.drop_last());
            match (Self::system_key_uuid(found.last().0@), found.last().1) {
                (Some(uuid), Some(system)) => before.insert(uuid, system),
                _ => before,
            }
        }
    }

    /// Takes in the systems that the key-value store holds. `found` is the
    /// store's answer to the question for the keys that match
    /// [`Galaxy::systems_pattern`]: its complaint where it failed, else each
    /// key with the system read from under it, `None` where that could not
    /// be fetched or decoded.
    pub fn load_systems(&mut self, found: Result<Vec<(String, Option<System>)>, String>) -> (done:
        Result<(), Error>)
        ensures
            match found {
                Err(complaint) => done == Err::<(), Error>(Error::KeysQueryError(complaint))
                    && final(self)@ == old(self)@,
                Ok(found) => done is Ok && final(self)@ == old(self)@.with_systems(
                    Self::systems_loaded(old(self)@.systems, found@),
                ),
            },
    {
        let found = match found {
            Ok(found) => found,
            Err(complaint) => {
                return Err(Error::KeysQueryError(complaint));
            },
        };
        let ghost all = found@;
        for entry in it: found
            invariant
                it.seq() == all,
                self@ == old(self)@.with_systems(
                    Self::systems_loaded(old(self)@.systems, all.take(it.index())),
                ),
        {
            proof {
                assert(all.take(it.index() + 1).drop_last() =~= all.take(it.index()));
            }
            let (key, record) = entry;
            if let Some(system) = record {
                if let Some(uuid) = Self::system_uuid(key.as_str()) {
                    self.systems.insert(uuid, system);
                }
            }
        }
        proof {
            assert(all.take(all.len() as int) =~= all);
        }
        Ok(())
    }

    /// Takes in all that is loaded when the server starts: the systems.
    pub fn load_all(&mut self, found: Result<Vec<(String, Option<System>)>, String>) -> (done:
        Result<(), Error>)
        ensures
            match found {
                Err(complaint) => done == Err::<(), Error>(Error::KeysQueryError(complaint))
                    && final(self)@ == old(self)@,
                Ok(found) => done is Ok && final(self)@ == old(self)@.with_systems(
                    Self::systems_loaded(old(self)@.systems, found@),
                ),
            },
    {
        self.load_systems(found)
    }

    /// The player that the key-value store holds for a nickname, with the
    /// identifier, or the error that says what is missing.
    ///
    /// `uuid` is what the store holds under [`Galaxy::nickname_key`], `None`
    /// where it gave nothing. `record` is the player read from under
    /// [`Galaxy::player_key`] of that text: `None` where the store gave
    /// nothing, the decoder's complaint where it could not be decoded.
    pub open spec fn found_player(
        uuid: Option<String>,
        record: Option<Result<Player, String>>,
    ) -> Result<(u128, Player), Error> {
        match (uuid, record) {
            (None, _) => Err(Error::NoPlayerForNickname),
            (Some(_), None) => Err(Error::NoPlayerForUuid),
            (Some(_), Some(Err(complaint))) => Err(Error::PlayerDeserializationError(complaint)),
            (Some(text), Some(Ok(player))) => match uuid_parse(text@) {
                None => Err(Error::UuidError),
                Some(uuid) => Ok((uuid, player)),
            },
        }
    }

    /// Takes in the player called by a nickname, as the key-value store holds
    /// them ([`Galaxy::found_player`]), and returns the player's identifier.
    /// A nickname that leads nowhere is an unknown player; an identifier
    /// that leads nowhere is a fault of the store, which a caller may
    /// survive. Where there is an error the world is as it was.
    pub fn load_player_by_nickname(
        &mut self,
        uuid: Option<String>,
        record: Option<Result<Player, String>>,
    ) -> (loaded: Result<u128, Error>)
        ensures
            match Self::found_player(uuid, record) {
                Ok((uuid, player)) => loaded == Ok::<u128, Error>(uuid) && final(self)@ == old(
                    self,
                )@.with_player(uuid, player),
                Err(error) => loaded == Err::<u128, Error>(error) && final(self)@ == old(self)@,
            },
    {
        let Some(text) = uuid else {
            return Err(Error::NoPlayerForNickname);
        };
        let Some(decoded) = record else {
            return Err(Error::NoPlayerForUuid);
        };
        let player = match decoded {
            Ok(player) => player,
            Err(complaint) => {
                return Err(Error::PlayerDeserializationError(complaint));
            },
        };
        let Some(uuid) = read_uuid(text.as_str()) else {
            return Err(Error::UuidError);
        };
        self.players.insert(uuid, player);
        Ok(uuid)
    }

    /// Whether `writes` save the systems in the order `order`: each system is
    /// there once, and the write for it holds what `encode` made of it, under
    /// the system's key, which names the system.
    pub open spec fn saves_systems<E: Fn(&System) -> Result<String, String>>(
        db_name: Seq<char>,
        systems: Map<u128, System>,
        encode: E,
        order: Seq<u128>,
        writes: Seq<(String, String)>,
    ) -> bool {
        &&& order.no_duplicates()
        &&& order.to_set() == systems.dom()
        &&& writes.len() == order.len()
        &&& forall|i: int|
            0 <= i < order.len() ==> {
                &&& (#[trigger] writes[i]).0@ == Self::system_key_text(db_name, order[i])
                &&& Self::system_key_uuid(writes[i].0@) == Some(order[i])
                &&& encode.ensures((&systems[order[i]],), Ok::<String, String>(writes[i].1))
            }
    }

    /// What is to be written so that the key-value store holds the systems:
    /// for each system of the world one write, of what `encode` made of the
    /// system, under the system's key. The systems come in no particular
    /// order.
    ///
    /// Unless `encode` made a record of every system that it was asked for,
    /// nothing is to be written, and its complaint is the error's.
    pub fn save_systems<E: Fn(&System) -> Result<String, String>>(&self, encode: E) -> (writes:
        Result<Vec<(String, String)>, Error>)
        requires
            forall|system: &System| encode.requires((system,)),
        ensures
            match writes {
                Ok(writes) => exists|order: Seq<u128>| #[trigger]
                    Self::saves_systems(self.db_name@, self.systems@, encode, order, writes@),
                Err(error) => exists|uuid: u128, complaint: String|
                    {
                        &&& #[trigger] self.systems@.contains_key(uuid)
                        &&& #[trigger] encode.ensures(
                            (&self.systems@[uuid],),
                            Err::<String, String>(complaint),
                        )
                        &&& error == Error::SaveSystemsSerializationError(complaint)
                    },
            },
    {
        let mut writes: Vec<(String, String)> = Vec::new();
        let ghost all = self.systems.iter().remaining();
        let ghost order = Seq::new(all.len(), |i: int| *all[i].0);
        for entry in it: self.systems.iter()
            invariant
                it.seq() == all,
                forall|system: &System| encode.requires((system,)),
                writes@.len() == it.index(),
                forall|i: int|
                    0 <= i < writes@.len() ==> {
                        &&& (#[trigger] writes@[i]).0@ == Self::system_key_text(
                            self.db_name@,
                            *all[i].0,
                        )
                        &&& Self::system_key_uuid(writes@[i].0@) == Some(*all[i].0)
                        &&& encode.ensures((all[i].1,), Ok::<String, String>(writes@[i].1))
                    },
        {
            let (uuid, system) = entry;
            assert(self.systems@.contains_key(*all[it.index()].0));
            match encode(system) {
                Ok(record) => {
                    writes.push((self.system_key(*uuid), record));
                },
                Err(complaint) => {
                    return Err(Error::SaveSystemsSerializationError(complaint));
                },
            }
        }
        proof {
            assert forall|i: int, j: int|
                0 <= i < order.len() && 0 <= j < order.len() && i != j implies order[i]
                != order[j] by {
                assert(self.systems@.contains_key(*all[i].0));
            }
            assert forall|uuid: u128| order.to_set().contains(uuid)
                <==> self.systems@.dom().contains(uuid) by {
                if self.systems@.contains_key(uuid) {
                    let i = choose|i: int|
                        0 <= i < all.len() && all[i] == (&uuid, &self.systems@[uuid]);
                    assert(order[i] == uuid);
                }
            }
            assert(order.to_set() =~= self.systems@.dom());
        }
        let saved = Ok(writes);
        assert(saved matches Ok(writes) && Self::saves_systems(
            self.db_name@,
            self.systems@,
            encode,
            order,
            writes@,
        ));
        saved
    }

    /// What is to be written when all that outlives the server is saved: the
    /// systems, as [`Galaxy::save_systems`] has it.
    pub fn save_all<E: Fn(&System) -> Result<String, String>>(&self, encode: E) -> (writes: Result<
        Vec<(String, String)>,
        Error,
    >)
        requires
            forall|system: &System| encode.requires((system,)),
        ensures
            match writes {
                Ok(writes) => exists|order: Seq<u128>| #[trigger]
                    Self::saves_systems(self.db_name@, self.systems@, encode, order, writes@),
                Err(error) => exists|uuid: u128, complaint: String|
                    {
                        &&& #[trigger] self.systems@.contains_key(uuid)
                        &&& #[trigger] encode.ensures(
                            (&self.systems@[uuid],),
                            Err::<String, String>(complaint),
                        )
                        &&& error == Error::SaveSystemsSerializationError(complaint)
                    },
            },
    {
        self.save_systems(encode)
    }

    /// Whether [`Galaxy::save_players`] writes anything for the record at
    /// `at`: it is a record, and of a player of `players`.
    pub open spec fn player_written(
        players: Map<u128, Player>,
        encoded: Seq<(u128, Result<String, String>)>,
        at: int,
    ) -> bool {
        &&& 0 <= at < encoded.len()
        &&& players.contains_key(encoded[at].0)
        &&& encoded[at].1 is Ok
    }

    /// What [`Galaxy::save_players`] has written after the records in
    /// `encoded`: for each player of `players` whose record is there, the
    /// record under the player's key, then the player's identifier under the
    /// nickname's key.
    pub open spec fn player_writes(
        db_name: Seq<char>,
        players: Map<u128, Player>,
        encoded: Seq<(u128, Result<String, String>)>,
    ) -> Seq<(Seq<char>, Seq<char>)>
        decreases encoded.len(),
    {
        if encoded.len() == 0 {
            Seq::empty()
        } else {
            let before = Self::player_writes(db_name, players, encoded.drop_last());
            let (uuid, record) = encoded.last();
            if Self::player_written(players, encoded, encoded.len() - 1) {
                before.push(
                    (Self::player_key_text(db_name, uuid_text(uuid)), record->Ok_0@),
                ).push(
                    (Self::nickname_key_text(db_name, players[uuid].nickname@), uuid_text(uuid)),
                )
            } else {
                before
            }
        }
    }

    /// Whether `writes` save the players as `encoded` tells: `encoded` holds
    /// each player's identifier once, with what `encode` made of the player,
    /// and `writes` are what is written after these
    /// ([`Galaxy::player_writes`]). Every identifier that is written can be
    /// read back from what is written.
    pub open spec fn saves_players<E: Fn(&Player) -> Result<String, String>>(
        db_name: Seq<char>,
        players: Map<u128, Player>,
        encode: E,
        encoded: Seq<(u128, Result<String, String>)>,
        writes: Seq<(Seq<char>, Seq<char>)>,
    ) -> bool {
        &&& forall|i: int, j: int|
            0 <= i < j < encoded.len() ==> (#[trigger] encoded[i]).0 != (#[trigger] encoded[j]).0
        &&& forall|uuid: u128| #[trigger]
            players.contains_key(uuid) <==> exists|i: int|
                0 <= i < encoded.len() && (#[trigger] encoded[i]).0 == uuid
        &&& forall|i: int|
            0 <= i < encoded.len() ==> encode.ensures(
                (&players[(#[trigger] encoded[i]).0],),
                encoded[i].1,
            )
        &&& forall|i: int|
            0 <= i < encoded.len() && (#[trigger] encoded[i]).1 is Ok ==> reads_back(encoded[i].0)
        &&& writes == Self::player_writes(db_name, players, encoded)
    }

    /// What is to be written so that the key-value store holds the players
    /// and leads from each nickname to its player: for each player of the
    /// world of whom `encode` made a record, the record under the player's
    /// key, then the player's identifier under the nickname's key. A player
    /// of whom it made none is passed over. The players come in no
    /// particular order.
    pub fn save_players<E: Fn(&Player) -> Result<String, String>>(&self, encode: E) -> (writes:
        Vec<(String, String)>)
        requires
            forall|player: &Player| encode.requires((player,)),
        ensures
            exists|encoded: Seq<(u128, Result<String, String>)>| #[trigger]
                Self::saves_players(
                    self.db_name@,
                    self.players@,
                    encode,
                    encoded,
                    writes.deep_view(),
                ),
    {
        let mut writes: Vec<(String, String)> = Vec::new();
        let ghost all = self.players.iter().remaining();
        let ghost mut encoded: Seq<(u128, Result<String, String>)> = Seq::empty();
        for entry in it: self.players.iter()
            invariant
                it.seq() == all,
                forall|player: &Player| encode.requires((player,)),
                encoded.len() == it.index(),
                forall|i: int|
                    0 <= i < encoded.len() ==> {
                        &&& (#[trigger] encoded[i]).0 == *all[i].0
                        &&& encode.ensures((all[i].1,), encoded[i].1)
                        &&& encoded[i].1 is Ok ==> reads_back(encoded[i].0)
                    },
                writes.deep_view() == Self::player_writes(self.db_name@, self.players@, encoded),
        {
            let (uuid, player) = entry;
            let ghost earlier = encoded;
            let outcome = encode(player);
            proof {
                encoded = earlier.push((*uuid, outcome));
                assert(encoded.drop_last() =~= earlier);
            }
            if let Ok(record) = outcome {
                let text = write_uuid(*uuid);
                let player_key = self.player_key(text.as_str());
                let nickname_key = self.nickname_key(player.nickname.as_str());
                writes.push((player_key, record));
                writes.push((nickname_key, text));
            }
        }
        proof {
            assert forall|i: int, j: int|
                0 <= i < j < encoded.len() implies (#[trigger] encoded[i]).0
                != (#[trigger] encoded[j]).0 by {
                assert(self.players@.contains_key(*all[i].0));
            }
            assert forall|uuid: u128| #[trigger]
                self.players@.contains_key(uuid) <==> exists|i: int|
                    0 <= i < encoded.len() && (#[trigger] encoded[i]).0 == uuid by {
                if self.players@.contains_key(uuid) {
                    let i = choose|i: int|
                        0 <= i < all.len() && all[i] == (&uuid, &self.players@[uuid]);
                    assert(encoded[i].0 == uuid);
                }
            }
            assert(Self::saves_players(
                self.db_name@,
                self.players@,
                encode,
                encoded,
                writes.deep_view(),
            ));
        }
        writes
    }

    /// The keys of the namespace. `keys` is the key-value store's answer to
    /// the question for the keys that match [`Galaxy::all_keys_pattern`],
    /// its complaint where it failed. A key that lies outside the namespace
    /// is left out, whatever made the store name it.
    pub fn all_keys(&self, keys: Result<Vec<String>, String>) -> (mine: Result<Vec<String>, Error>)
        ensures
            match keys {
                Err(complaint) => mine == Err::<Vec<String>, Error>(
                    Error::KeysQueryError(complaint),
                ),
                Ok(keys) => mine matches Ok(mine) && mine.deep_view() == Self::namespace_keys(
                    self.db_name@,
                    keys.deep_view(),
                ),
            },
            mine matches Ok(mine) ==> forall|i: int|
                0 <= i < mine@.len() ==> Self::in_namespace(self.db_name@, (#[trigger] mine@[i])@),
    {
        let keys = match keys {
            Ok(keys) => keys,
            Err(complaint) => {
                return Err(Error::KeysQueryError(complaint));
            },
        };
        let prefix = self.db_name.clone().concat(":");
        let ghost inside = |key: Seq<char>| Self::in_namespace(self.db_name@, key);
        let mut mine: Vec<String> = Vec::new();
        let mut done: usize = 0;
        while done < keys.len()
            invariant
                done <= keys@.len(),
                prefix@ == self.db_name@ + ":"@,
                inside == |key: Seq<char>| Self::in_namespace(self.db_name@, key),
                mine.deep_view() == keys.deep_view().take(done as int).filter(inside),
                forall|i: int|
                    0 <= i < mine@.len() ==> Self::in_namespace(
                        self.db_name@,
                        (#[trigger] mine@[i])@,
                    ),
            decreases keys@.len() - done,
        {
            proof {
                reveal(Seq::filter);
                assert(keys.deep_view().take(done + 1).drop_last() =~= keys.deep_view().take(
                    done as int,
                ));
            }
            if starts_with(keys[done].as_str(), prefix.as_str()) {
                mine.push(keys[done].clone());
            }
            done = done + 1;
        }
        proof {
            assert(keys.deep_view().take(keys@.len() as int) =~= keys.deep_view());
        }
        Ok(mine)
    }

    /// How the saving of the systems ended, once the writes of
    /// [`Galaxy::save_systems`] were carried out. `written` is the store's
    /// complaint about the first write that failed, if one did: it is
    /// surfaced, with the store's words.
    pub fn systems_saved(written: Result<(), String>) -> (saved: Result<(), Error>)
        ensures
            match written {
                Ok(_) => saved is Ok,
                Err(complaint) => saved == Err::<(), Error>(Error::SaveSystemsSetError(complaint)),
            },
    {
        match written {
            Ok(_) => Ok(()),
            Err(complaint) => Err(Error::SaveSystemsSetError(complaint)),
        }
    }

    /// How the saving of the players ended, once the writes of
    /// [`Galaxy::save_players`] were carried out. `written` is the store's
    /// complaint about the first write that failed, if one did: it is
    /// surfaced, with the store's words, and never passed over.
    pub fn players_saved(written: Result<(), String>) -> (saved: Result<(), Error>)
        ensures
            match written {
                Ok(_) => saved is Ok,
                Err(complaint) => saved == Err::<(), Error>(Error::SavePlayersSetError(complaint)),
            },
    {
        match written {
            Ok(_) => Ok(()),
            Err(complaint) => Err(Error::SavePlayersSetError(complaint)),
        }
    }

    /// The keys to delete so that nothing of the namespace is left in the
    /// key-value store: [`Galaxy::all_keys`], and so never a key outside it.
    pub fn clear_db(&self, keys: Result<Vec<String>, String>) -> (doomed: Result<
        Vec<String>,
        Error,
    >)
        ensures
            match keys {
                Err(complaint) => doomed == Err::<Vec<String>, Error>(
                    Error::KeysQueryError(complaint),
                ),
                Ok(keys) => doomed matches Ok(doomed) && doomed.deep_view()
                    == Self::namespace_keys(self.db_name@, keys.deep_view()),
            },
            doomed matches Ok(doomed) ==> forall|i: int|
                0 <= i < doomed@.len() ==> Self::in_namespace(
                    self.db_name@,
                    (#[trigger] doomed@[i])@,
                ),
    {
        self.all_keys(keys)
    }
}

} // verus!
