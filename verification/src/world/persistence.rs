//! The key-value store as the world store sees it: what it holds after a
//! run of writes, and that what was saved is what is found again.

use crate::identity::{reads_back, uuid_text};
use crate::world::galaxy::Galaxy;
use crate::world::player::Player;
use crate::world::system::System;
use vstd::prelude::*;

verus! {

/// What a key-value store holds after `writes` were carried out on `store`,
/// one after the other: each sets the value of its key.
pub open spec fn stored(
    store: Map<Seq<char>, Seq<char>>,
    writes: Seq<(Seq<char>, Seq<char>)>,
) -> Map<Seq<char>, Seq<char>>
    decreases writes.len(),
{
    if writes.len() == 0 {
        store
    } else {
        stored(store, writes.drop_last()).insert(writes.last().0, writes.last().1)
    }
}

/// Where the identifier that was drawn is in use by none yet, the one who is
/// added is in the world under it, all who were there are there as they
/// were, and there is one more than before. What
/// [`Galaxy::add_system`] and [`Galaxy::add_player`] do to their maps is
/// this insertion.
pub proof fn added_under_unused_uuid<T>(before: Map<u128, T>, uuid: u128, added: T)
    requires
        before.dom().finite(),
        !before.contains_key(uuid),
    ensures
        before.insert(uuid, added).contains_key(uuid),
        before.insert(uuid, added)[uuid] == added,
        forall|other: u128| #[trigger]
            before.contains_key(other) ==> other != uuid && before.insert(
                uuid,
                added,
            ).contains_key(other) && before.insert(uuid, added)[other] == before[other],
        before.insert(uuid, added).len() == before.len() + 1,
{
}

/// A system that was found under a key that names `uuid`, and no later key
/// of those found names `uuid` as well, is in the world under `uuid` once
/// [`Galaxy::load_systems`] took in what was found.
proof fn last_found_is_loaded(
    systems: Map<u128, System>,
    found: Seq<(String, Option<System>)>,
    at: int,
    uuid: u128,
)
    requires
        0 <= at < found.len(),
        Galaxy::system_key_uuid(found[at].0@) == Some(uuid),
        found[at].1 is Some,
        forall|later: int|
            at < later < found.len() ==> Galaxy::system_key_uuid(#[trigger] found[later].0@)
                != Some(uuid),
    ensures
        Galaxy::systems_loaded(systems, found).contains_key(uuid),
        Galaxy::systems_loaded(systems, found)[uuid] == found[at].1->Some_0,
    decreases found.len(),
{
    if at < found.len() - 1 {
        let earlier = found.drop_last();
        last_found_is_loaded(systems, earlier, at, uuid);
    }
}

/// Saved systems are loaded again: where the writes of
/// [`Galaxy::save_systems`] were carried out and `found` holds, key by key,
/// the systems that were decoded from what was written, the world that
/// [`Galaxy::load_systems`] makes of `found` holds each of them under the
/// identifier of the system that was saved, whatever it held before.
pub proof fn saved_systems_are_loaded<E: Fn(&System) -> Result<String, String>>(
    db_name: Seq<char>,
    saved: Map<u128, System>,
    encode: E,
    order: Seq<u128>,
    writes: Seq<(String, String)>,
    found: Seq<(String, Option<System>)>,
    systems: Map<u128, System>,
)
    requires
        Galaxy::saves_systems(db_name, saved, encode, order, writes),
        found.len() == writes.len(),
        forall|i: int| 0 <= i < found.len() ==> (#[trigger] found[i]).0@ == writes[i].0@,
    ensures
        forall|i: int|
            0 <= i < found.len() && (#[trigger] found[i]).1 is Some ==> {
                &&& saved.contains_key(order[i])
                &&& Galaxy::systems_loaded(systems, found).contains_key(order[i])
                &&& Galaxy::systems_loaded(systems, found)[order[i]] == found[i].1->Some_0
            },
{
    assert forall|i: int| 0 <= i < found.len() && (#[trigger] found[i]).1 is Some implies {
        &&& saved.contains_key(order[i])
        &&& Galaxy::systems_loaded(systems, found).contains_key(order[i])
        &&& Galaxy::systems_loaded(systems, found)[order[i]] == found[i].1->Some_0
    } by {
        last_found_is_loaded(systems, found, i, order[i]);
    }
}

/// A player's key is no nickname's key, whatever the two are made of.
pub proof fn player_key_is_no_nickname_key(db_name: Seq<char>, uuid: Seq<char>, nickname: Seq<char>)
    ensures
        Galaxy::player_key_text(db_name, uuid) != Galaxy::nickname_key_text(db_name, nickname),
{
    reveal_strlit(":player:");
    reveal_strlit(":nickname_to_uuid:");
    let player_key = Galaxy::player_key_text(db_name, uuid);
    let nickname_key = Galaxy::nickname_key_text(db_name, nickname);
    assert(player_key[db_name.len() as int + 1] != nickname_key[db_name.len() as int + 1]);
}

/// Two nicknames have one key only where they are one nickname.
pub proof fn nickname_keys_differ(db_name: Seq<char>, first: Seq<char>, second: Seq<char>)
    requires
        first != second,
    ensures
        Galaxy::nickname_key_text(db_name, first) != Galaxy::nickname_key_text(db_name, second),
{
    let prefix = db_name + ":nickname_to_uuid:"@;
    assert((prefix + first).skip(prefix.len() as int) =~= first);
    assert((prefix + second).skip(prefix.len() as int) =~= second);
}

/// Two identifiers that are read back from their texts have one player's key
/// only where they are one identifier.
pub proof fn player_keys_differ(db_name: Seq<char>, first: u128, second: u128)
    requires
        first != second,
        reads_back(first),
        reads_back(second),
    ensures
        Galaxy::player_key_text(db_name, uuid_text(first)) != Galaxy::player_key_text(
            db_name,
            uuid_text(second),
        ),
{
    let prefix = db_name + ":player:"@;
    assert((prefix + uuid_text(first)).skip(prefix.len() as int) =~= uuid_text(first));
    assert((prefix + uuid_text(second)).skip(prefix.len() as int) =~= uuid_text(second));
}

/// A player who was saved is found again by nickname: in any store on which
/// the writes of [`Galaxy::save_players`] were carried out, the nickname
/// leads to the player's identifier and the identifier to the record that
/// was saved, so that [`Galaxy::found_player`] gives the identifier with
/// whatever is decoded from the record.
///
/// This holds of the player whose record is at `at`, where no later record
/// that is written is of the same identifier or of a player of the same
/// nickname, and every identifier that is written is read back from its
/// text, as [`Galaxy::save_players`] says it is.
pub proof fn saved_player_is_found(
    db_name: Seq<char>,
    players: Map<u128, Player>,
    encoded: Seq<(u128, Result<String, String>)>,
    store: Map<Seq<char>, Seq<char>>,
    at: int,
)
    requires
        Galaxy::player_written(players, encoded, at),
        forall|other: int| #[trigger]
            Galaxy::player_written(players, encoded, other) ==> reads_back(encoded[other].0),
        forall|later: int|
            at < later && #[trigger] Galaxy::player_written(players, encoded, later) ==> {
                &&& encoded[later].0 != encoded[at].0
                &&& players[encoded[later].0].nickname@ != players[encoded[at].0].nickname@
            },
    ensures
        ({
            let uuid = encoded[at].0;
            let after = stored(store, Galaxy::player_writes(db_name, players, encoded));
            let nickname_key = Galaxy::nickname_key_text(db_name, players[uuid].nickname@);
            let player_key = Galaxy::player_key_text(db_name, uuid_text(uuid));
            &&& after.contains_key(nickname_key)
            &&& after[nickname_key] == uuid_text(uuid)
            &&& after.contains_key(player_key)
            &&& after[player_key] == encoded[at].1->Ok_0@
            &&& forall|text: String, decoded: Player|
                text@ == after[nickname_key] ==> #[trigger] Galaxy::found_player(
                    Some(text),
                    Some(Ok(decoded)),
                ) == Ok::<(u128, Player), crate::error::Error>((uuid, decoded))
        }),
    decreases encoded.len(),
{
    let uuid = encoded[at].0;
    let last = encoded.len() - 1;
    let earlier = encoded.drop_last();
    let before = Galaxy::player_writes(db_name, players, earlier);
    if Galaxy::player_written(players, encoded, last) {
        let (last_uuid, last_record) = encoded.last();
        let last_player_key = Galaxy::player_key_text(db_name, uuid_text(last_uuid));
        let last_nickname_key = Galaxy::nickname_key_text(
            db_name,
            players[last_uuid].nickname@,
        );
        let first = (last_player_key, last_record->Ok_0@);
        let second = (last_nickname_key, uuid_text(last_uuid));
        let writes = before.push(first).push(second);
        assert(writes.drop_last() =~= before.push(first));
        assert(before.push(first).drop_last() =~= before);
        assert(stored(store, before.push(first)) == stored(store, before).insert(
            first.0,
            first.1,
        ));
        player_key_is_no_nickname_key(db_name, uuid_text(last_uuid), players[uuid].nickname@);
        player_key_is_no_nickname_key(db_name, uuid_text(uuid), players[last_uuid].nickname@);
        if at < last {
            assert forall|other: int| #[trigger]
                Galaxy::player_written(players, earlier, other) implies reads_back(
                earlier[other].0,
            ) by {
                assert(Galaxy::player_written(players, encoded, other));
            }
            assert forall|later: int|
                at < later && #[trigger] Galaxy::player_written(
                    players,
                    earlier,
                    later,
                ) implies encoded[later].0 != encoded[at].0 && players[earlier[later].0].nickname@
                != players[earlier[at].0].nickname@ by {
                assert(Galaxy::player_written(players, encoded, later));
            }
            saved_player_is_found(db_name, players, earlier, store, at);
            player_keys_differ(db_name, uuid, last_uuid);
            nickname_keys_differ(db_name, players[uuid].nickname@, players[last_uuid].nickname@);
        }
    } else {
        assert forall|other: int| #[trigger]
            Galaxy::player_written(players, earlier, other) implies reads_back(
            earlier[other].0,
        ) by {
            assert(Galaxy::player_written(players, encoded, other));
        }
        assert forall|later: int|
            at < later && #[trigger] Galaxy::player_written(
                players,
                earlier,
                later,
            ) implies encoded[later].0 != encoded[at].0 && players[earlier[later].0].nickname@
            != players[earlier[at].0].nickname@ by {
            assert(Galaxy::player_written(players, encoded, later));
        }
        saved_player_is_found(db_name, players, earlier, store, at);
    }
}

/// Saved players are found again: once the writes of
/// [`Galaxy::save_players`] were carried out on a store, whatever it held,
/// the nickname of a player of whom a record was made leads to the player's
/// identifier, and the identifier to that record, so that
/// [`Galaxy::found_player`] gives the identifier with whatever is decoded
/// from the record. This holds of a player whose nickname no other player
/// of the world has.
pub proof fn saved_players_are_found<E: Fn(&Player) -> Result<String, String>>(
    db_name: Seq<char>,
    players: Map<u128, Player>,
    encode: E,
    encoded: Seq<(u128, Result<String, String>)>,
    writes: Seq<(Seq<char>, Seq<char>)>,
    store: Map<Seq<char>, Seq<char>>,
    at: int,
)
    requires
        Galaxy::saves_players(db_name, players, encode, encoded, writes),
        0 <= at < encoded.len(),
        encoded[at].1 is Ok,
        forall|other: u128| #[trigger]
            players.contains_key(other) && other != encoded[at].0 ==> players[other].nickname@
                != players[encoded[at].0].nickname@,
    ensures
        ({
            let uuid = encoded[at].0;
            let after = stored(store, writes);
            let nickname_key = Galaxy::nickname_key_text(db_name, players[uuid].nickname@);
            let player_key = Galaxy::player_key_text(db_name, uuid_text(uuid));
            &&& players.contains_key(uuid)
            &&& encode.ensures((&players[uuid],), encoded[at].1)
            &&& after.contains_key(nickname_key)
            &&& after[nickname_key] == uuid_text(uuid)
            &&& after.contains_key(player_key)
            &&& after[player_key] == encoded[at].1->Ok_0@
            &&& forall|text: String, decoded: Player|
                text@ == after[nickname_key] ==> #[trigger] Galaxy::found_player(
                    Some(text),
                    Some(Ok(decoded)),
                ) == Ok::<(u128, Player), crate::error::Error>((uuid, decoded))
        }),
{
    saved_player_is_found(db_name, players, encoded, store, at);
}

/// Saved systems come back as they were: where decoding gives back what
/// was encoded, and the writes of [`Galaxy::save_systems`] were carried out
/// and `found` holds, key by key, what was decoded from what was written,
/// the world that [`Galaxy::load_systems`] makes of `found` holds every
/// system that was saved, under its identifier and as it was, whatever the
/// world held before.
pub proof fn saved_systems_come_back<E: Fn(&System) -> Result<String, String>>(
    db_name: Seq<char>,
    saved: Map<u128, System>,
    encode: E,
    decode: spec_fn(Seq<char>) -> Option<System>,
    order: Seq<u128>,
    writes: Seq<(String, String)>,
    found: Seq<(String, Option<System>)>,
    systems: Map<u128, System>,
)
    requires
        Galaxy::saves_systems(db_name, saved, encode, order, writes),
        found.len() == writes.len(),
        forall|i: int|
            0 <= i < found.len() ==> (#[trigger] found[i]).0@ == writes[i].0@ && found[i].1
                == decode(writes[i].1@),
        forall|system: System, record: String| #[trigger]
            encode.ensures((&system,), Ok::<String, String>(record)) ==> decode(record@) == Some(
                system,
            ),
    ensures
        forall|uuid: u128| #[trigger]
            saved.contains_key(uuid) ==> Galaxy::systems_loaded(systems, found).contains_key(uuid)
                && Galaxy::systems_loaded(systems, found)[uuid] == saved[uuid],
{
    saved_systems_are_loaded(db_name, saved, encode, order, writes, found, systems);
    assert forall|uuid: u128| #[trigger] saved.contains_key(uuid) implies Galaxy::systems_loaded(
        systems,
        found,
    ).contains_key(uuid) && Galaxy::systems_loaded(systems, found)[uuid] == saved[uuid] by {
        assert(order.to_set().contains(uuid));
        let i = choose|i: int| 0 <= i < order.len() && order[i] == uuid;
        assert(encode.ensures((&saved[order[i]],), Ok::<String, String>(writes[i].1)));
        assert(found[i].1 == Some(saved[uuid]));
    }
}

/// Saved players come back as they were: where decoding gives back what
/// was encoded, and the writes of [`Galaxy::save_players`] were carried out
/// on a store, whatever it held, [`Galaxy::found_player`] makes of what the
/// store holds for the nickname of a player of whom a record was made that
/// very player, under the identifier that they had. So a login under the
/// nickname is the login of a known player, for whom no system is made.
/// This holds of a player whose nickname no other player of the world has.
pub proof fn saved_players_come_back<E: Fn(&Player) -> Result<String, String>>(
    db_name: Seq<char>,
    players: Map<u128, Player>,
    encode: E,
    decode: spec_fn(Seq<char>) -> Result<Player, String>,
    encoded: Seq<(u128, Result<String, String>)>,
    writes: Seq<(Seq<char>, Seq<char>)>,
    store: Map<Seq<char>, Seq<char>>,
    at: int,
)
    requires
        Galaxy::saves_players(db_name, players, encode, encoded, writes),
        0 <= at < encoded.len(),
        encoded[at].1 is Ok,
        forall|other: u128| #[trigger]
            players.contains_key(other) && other != encoded[at].0 ==> players[other].nickname@
                != players[encoded[at].0].nickname@,
        forall|player: Player, record: String| #[trigger]
            encode.ensures((&player,), Ok::<String, String>(record)) ==> decode(record@) == Ok::<
                Player,
                String,
            >(player),
    ensures
        ({
            let uuid = encoded[at].0;
            let after = stored(store, writes);
            let nickname_key = Galaxy::nickname_key_text(db_name, players[uuid].nickname@);
            &&& after.contains_key(nickname_key)
            &&& forall|text: String|
                text@ == after[nickname_key] ==> {
                    &&& after.contains_key(Galaxy::player_key_text(db_name, text@))
                    &&& #[trigger] Galaxy::found_player(
                        Some(text),
                        Some(decode(after[Galaxy::player_key_text(db_name, text@)])),
                    ) == Ok::<(u128, Player), crate::error::Error>((uuid, players[uuid]))
                }
        }),
{
    saved_players_are_found(db_name, players, encode, encoded, writes, store, at);
    let uuid = encoded[at].0;
    let record = encoded[at].1->Ok_0;
    assert(encode.ensures((&players[uuid],), Ok::<String, String>(record)));
    assert(decode(record@) == Ok::<Player, String>(players[uuid]));
}

} // verus!
