//! The keys under which the world is kept in the key-value store: the
//! namespace, the kind of what is kept, and its name.

use crate::identity::{
    read_uuid, reads_back, uuid_parse, uuid_text, uuid_text_is_plain, write_uuid,
};
use crate::text::{after_last, occurs_at, occurs_last_at};
use crate::world::galaxy::Galaxy;
use vstd::prelude::*;
use vstd::string::StringExecFns;

verus! {

impl Galaxy {
    /// The key under which the system `uuid` is kept in the namespace `db_name`.
    pub open spec fn system_key_text(db_name: Seq<char>, uuid: u128) -> Seq<char> {
        db_name + ":system:"@ + uuid_text(uuid)
    }

    /// The key under which the player whose identifier is written `uuid` is kept.
    pub open spec fn player_key_text(db_name: Seq<char>, uuid: Seq<char>) -> Seq<char> {
        db_name + ":player:"@ + uuid
    }

    /// The key under which the identifier of the player called `nickname` is kept.
    pub open spec fn nickname_key_text(db_name: Seq<char>, nickname: Seq<char>) -> Seq<char> {
        db_name + ":nickname_to_uuid:"@ + nickname
    }

    /// The identifier that a system's key names: what follows the last
    /// `system:` in it, read as a UUID.
    pub open spec fn system_key_uuid(key: Seq<char>) -> Option<u128> {
        if exists|at: int| occurs_at(key, "system:"@, at) {
            let at = choose|at: int| occurs_last_at(key, "system:"@, at);
            uuid_parse(key.skip(at + "system:"@.len()))
        } else {
            None
        }
    }

    /// A system's key names the system's identifier, whatever the namespace,
    /// where the identifier is read back from its text.
    pub proof fn system_key_names_its_uuid(db_name: Seq<char>, uuid: u128)
        requires
            reads_back(uuid),
        ensures
            Self::system_key_uuid(Self::system_key_text(db_name, uuid)) == Some(uuid),
    {
        reveal_strlit(":system:");
        reveal_strlit("system:");
        let key = Self::system_key_text(db_name, uuid);
        let mark = "system:"@;
        let text = uuid_text(uuid);
        let at = db_name.len() as int + 1;
        assert(key.subrange(at, at + 7) =~= mark);
        assert forall|later: int| at < later implies !occurs_at(key, mark, later) by {
            if later + 7 <= key.len() {
                let inside = later + 6 - (at + 7);
                uuid_text_is_plain(uuid, inside);
                assert(key.subrange(later, later + 7)[6] == key[later + 6]);
            }
        }
        assert(occurs_last_at(key, mark, at));
        assert(key.skip(at + 7) =~= text);
    }

    /// The key of the system `uuid`, which names `uuid`.
    pub fn system_key(&self, uuid: u128) -> (key: String)
        ensures
            key@ == Self::system_key_text(self.db_name@, uuid),
            Self::system_key_uuid(key@) == Some(uuid),
    {
        let text = write_uuid(uuid);
        proof {
            Self::system_key_names_its_uuid(self.db_name@, uuid);
        }
        self.db_name.clone().concat(":system:").concat(text.as_str())
    }

    /// The key of the player whose identifier is written `uuid`.
    pub fn player_key(&self, uuid: &str) -> (key: String)
        ensures
            key@ == Self::player_key_text(self.db_name@, uuid@),
    {
        self.db_name.clone().concat(":player:").concat(uuid)
    }

    /// The key that leads from `nickname` to a player's identifier.
    pub fn nickname_key(&self, nickname: &str) -> (key: String)
        ensures
            key@ == Self::nickname_key_text(self.db_name@, nickname@),
    {
        self.db_name.clone().concat(":nickname_to_uuid:").concat(nickname)
    }

    /// The pattern that every system's key matches.
    pub fn systems_pattern(&self) -> (pattern: String)
        ensures
            pattern@ == self.db_name@ + ":system:*"@,
    {
        self.db_name.clone().concat(":system:*")
    }

    /// The pattern that every key of the namespace matches.
    pub fn all_keys_pattern(&self) -> (pattern: String)
        ensures
            pattern@ == self.db_name@ + ":*"@,
    {
        self.db_name.clone().concat(":*")
    }

    /// The identifier that a system's key names, if it names one.
    pub fn system_uuid(key: &str) -> (uuid: Option<u128>)
        ensures
            uuid == Self::system_key_uuid(key@),
    {
        match after_last(key, "system:") {
            Some(rest) => {
                read_uuid(rest)
            },
            None => None,
        }
    }

    /// Whether a key belongs to the namespace `db_name`.
    pub open spec fn in_namespace(db_name: Seq<char>, key: Seq<char>) -> bool {
        (db_name + ":"@).is_prefix_of(key)
    }

    /// Those of `keys` that belong to the namespace `db_name`, in their order.
    pub open spec fn namespace_keys(db_name: Seq<char>, keys: Seq<Seq<char>>) -> Seq<Seq<char>> {
        keys.filter(|key: Seq<char>| Self::in_namespace(db_name, key))
    }
}

} // verus!
