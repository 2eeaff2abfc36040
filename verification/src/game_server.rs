//! The orchestrator: what each event of a connection's life does to the
//! world and to the live sessions, and what has to be done about it.
//!
//! A connection is accepted, authenticates with its first message, is then
//! active, and is at last removed. The sockets, the timers and the key-value
//! store are a caller's: it waits on them, one event at a time, hands each
//! event in here, and carries out what comes back.

use crate::chance::draw;
use crate::error::Error;
use crate::identity::{is_random_uuid, new_uuid};
use crate::world::body::Body;
use crate::world::galaxy::{uuids, Galaxy, GalaxyView};
use crate::world::player::Player;
use crate::world::system::{CenterType, System, SystemView};
use crate::world::temporal::Temporal;
use crate::world::vector::Vector3;
use crate::{GalaxyCoordsRepr, GalaxyOffsetRepr, SystemCoordsRepr};
use std::collections::HashMap;
use vstd::prelude::*;
use vstd::string::StringExecFns;

verus! {

broadcast use vstd::std_specs::hash::group_hash_axioms;

/// What a player asks for.
#[derive(Clone, Debug, PartialEq, Eq)]
pub enum PlayerAction {
    Login(String),
    Move(Vector3<SystemCoordsRepr>),
}

/// The first message of a connection.
#[derive(Clone, Debug, PartialEq, Eq)]
pub struct Login {
    pub nickname: String,
}

/// A message of a client.
#[derive(Clone, Debug, PartialEq, Eq)]
pub enum ClientMessage {
    Login(Login),
    Move(Vector3<SystemCoordsRepr>),
}

/// What a read on a framed connection brought: the end of the stream, the
/// transport's complaint, or a frame. Of a text frame it holds the text, or
/// what was made of the text; of the other frames only the kind.
#[derive(Clone, Debug, PartialEq, Eq)]
pub enum Received<T> {
    End,
    Failed(String),
    Text(T),
    Binary,
    Ping,
    Pong,
    Close,
    Frame,
}

impl<T> Received<T> {
    /// The same read, with `make` applied to the text of a text frame.
    pub fn map<U, F: FnOnce(T) -> U>(self, make: F) -> (made: Received<U>)
        requires
            self matches Received::Text(text) ==> make.requires((text,)),
        ensures
            match self {
                Received::End => made == Received::<U>::End,
                Received::Failed(complaint) => made == Received::<U>::Failed(complaint),
                Received::Text(text) => made matches Received::Text(of) && make.ensures(
                    (text,),
                    of,
                ),
                Received::Binary => made == Received::<U>::Binary,
                Received::Ping => made == Received::<U>::Ping,
                Received::Pong => made == Received::<U>::Pong,
                Received::Close => made == Received::<U>::Close,
                Received::Frame => made == Received::<U>::Frame,
            },
    {
        match self {
            Received::End => Received::End,
            Received::Failed(complaint) => Received::Failed(complaint),
            Received::Text(text) => Received::Text(make(text)),
            Received::Binary => Received::Binary,
            Received::Ping => Received::Ping,
            Received::Pong => Received::Pong,
            Received::Close => Received::Close,
            Received::Frame => Received::Frame,
        }
    }
}

/// What the server makes of a read: a text frame holds a client's message,
/// or the decoder's complaint about the text.
pub type Incoming = Received<Result<ClientMessage, String>>;

/// The numbers from which a newcomer's home system is made.
#[derive(Clone, Copy, Debug, PartialEq, Eq)]
pub struct HomeSeed {
    pub coords: Vector3<GalaxyCoordsRepr>,
    pub offset: Vector3<GalaxyOffsetRepr>,
    pub center: u32,
}

impl HomeSeed {
    /// Whether the numbers are such as are drawn for a newcomer: inside the
    /// galactic disc, inside the parsec, and a centre of one of the first
    /// four kinds.
    pub open spec fn drawable(self) -> bool {
        &&& -15000 <= self.coords.x < 15000
        &&& -2000 <= self.coords.y < 2000
        &&& -15000 <= self.coords.z < 15000
        &&& -100000 <= self.offset.x < 100000
        &&& -100000 <= self.offset.y < 100000
        &&& -100000 <= self.offset.z < 100000
        &&& self.center < 4
    }

    /// The home system made from the numbers.
    pub open spec fn home(self) -> SystemView {
        SystemView {
            coords: self.coords,
            offset: self.offset,
            center_type: CenterType::of(self.center),
            bodies: Seq::empty(),
        }
    }

    /// Draws the numbers for a newcomer's home system.
    pub fn draw() -> (seed: HomeSeed)
        ensures
            seed.drawable(),
    {
        let x = draw(-15000, 15000) as i16;
        let y = draw(-2000, 2000) as i16;
        let z = draw(-15000, 15000) as i16;
        let offset_x = draw(-100000, 100000);
        let offset_y = draw(-100000, 100000);
        let offset_z = draw(-100000, 100000);
        let center = draw(0, 4) as u32;
        HomeSeed {
            coords: Vector3::new(x, y, z),
            offset: Vector3::new(offset_x, offset_y, offset_z),
            center,
        }
    }

    /// Makes the home system: no bodies yet, where and what the numbers say.
    pub fn system(&self) -> (system: System)
        requires
            self.center <= 4,
        ensures
            system@ == self.home(),
    {
        System::new(self.coords, self.offset, CenterType::from(self.center))
    }
}

/// Where a newcomer stands in the system they observe: 100 metres along each
/// axis.
pub const SPAWN: SystemCoordsRepr = 0x42c8_0000;

/// How a login was answered.
#[derive(Clone, Copy, Debug, PartialEq, Eq)]
pub enum Admission {
    /// The key-value store knew the player, who is in the world now.
    Known(u128),
    /// The store is at fault: the session goes on under an identifier of
    /// its own, and no player is in the world for it.
    Stranger(u128),
    /// Nobody has the nickname yet: a home system is in the world under
    /// this identifier, and the player follows once the systems are saved.
    Newcomer(u128),
}

/// What follows a connection's first read.
#[derive(Clone, Debug, PartialEq, Eq)]
pub enum Welcome {
    /// There was no login: the connection is to be closed.
    Refused,
    /// The session of the player `uuid` is live on the connection, which is
    /// to be read on. `replaced` is the connection that held the player's
    /// session before, if one did.
    Active { uuid: u128, replaced: Option<u64> },
    /// A newcomer called `nickname`, whose home system `system` is in the
    /// world. The systems are to be saved and [`GameServer::on_saved`] told
    /// how that went.
    Saving { nickname: String, system: u128 },
    /// A newcomer who is in the world as the player `uuid`. The players are
    /// to be saved and [`GameServer::on_players_saved`] told how that went.
    SavingPlayers { uuid: u128 },
}

/// What follows a read on an active connection.
#[derive(Clone, Copy, Debug, PartialEq, Eq)]
pub enum Reading {
    /// The connection is to be read on.
    Again,
    /// The session is over. `writer` is the connection whose write half was
    /// the player's, if there was one.
    Over { writer: Option<u64> },
}

/// What a tick has for the player `player`, who observes the system
/// `system`.
#[derive(Clone, Copy, Debug, PartialEq, Eq)]
pub enum Snapshot {
    /// The system is to be fed to the write half of the connection
    /// `writer`, on which the player's session is.
    Feed { player: u128, writer: u64, system: u128 },
    /// Nothing, as the system is not in the world.
    NoSystem { player: u128, system: u128 },
    /// Nothing, as the player has no live session.
    NoWriter { player: u128, system: u128 },
}

impl Snapshot {
    /// The player whom the snapshot is for.
    pub open spec fn player(self) -> u128 {
        match self {
            Snapshot::Feed { player, .. } => player,
            Snapshot::NoSystem { player, .. } => player,
            Snapshot::NoWriter { player, .. } => player,
        }
    }
}

/// The orchestrator's state: the world, and for each player with a live
/// session the number of the connection whose write half is theirs.
pub struct GameServer {
    pub galaxy: Galaxy,
    pub writers: HashMap<u128, u64>,
}

/// The orchestrator's state as a value.
pub struct GameServerView {
    pub galaxy: GalaxyView,
    pub writers: Map<u128, u64>,
}

impl View for GameServer {
    type V = GameServerView;

    open spec fn view(&self) -> GameServerView {
        GameServerView { galaxy: self.galaxy@, writers: self.writers@ }
    }
}

impl GameServerView {
    /// The state with `system` in the world under `uuid`.
    pub open spec fn with_system(self, uuid: u128, system: System) -> GameServerView {
        GameServerView { galaxy: self.galaxy.with_system(uuid, system), ..self }
    }

    /// The state with `player` in the world under `uuid`.
    pub open spec fn with_player(self, uuid: u128, player: Player) -> GameServerView {
        GameServerView { galaxy: self.galaxy.with_player(uuid, player), ..self }
    }

    /// The state with the systems `systems` in the world.
    pub open spec fn with_systems(self, systems: Map<u128, System>) -> GameServerView {
        GameServerView { galaxy: self.galaxy.with_systems(systems), ..self }
    }

    /// The state with the session of the player `uuid` live on `connection`.
    pub open spec fn with_writer(self, uuid: u128, connection: u64) -> GameServerView {
        GameServerView { writers: self.writers.insert(uuid, connection), ..self }
    }

    /// The state without the player `uuid`: neither in the world nor with a
    /// live session.
    pub open spec fn without(self, uuid: u128) -> GameServerView {
        GameServerView {
            galaxy: GalaxyView { players: self.galaxy.players.remove(uuid), ..self.galaxy },
            writers: self.writers.remove(uuid),
        }
    }
}

impl GameServer {
    /// What a read means to the server: the client's message, or why there
    /// is none.
    pub open spec fn message_of(received: Incoming) -> Result<ClientMessage, Error> {
        match received {
            Received::End => Err(Error::NothingToRead),
            Received::Failed(complaint) => Err(Error::WebSocketError(complaint)),
            Received::Text(Ok(message)) => Ok(message),
            Received::Text(Err(complaint)) => Err(Error::ClientMessageDeserializeError(complaint)),
            Received::Close => Err(Error::NormalClose),
            _ => Err(Error::UnexpectedNonTextMessageError),
        }
    }

    /// What the first read of a connection means: a login, or why the
    /// connection is to be closed. Only a login will do.
    pub open spec fn first_action_of(received: Incoming) -> Result<PlayerAction, Error> {
        match Self::message_of(received) {
            Ok(ClientMessage::Login(login)) => Ok(PlayerAction::Login(login.nickname)),
            Ok(_) => Err(Error::UnexpectedNonLoginMessage),
            Err(error) => Err(error),
        }
    }

    /// What a later read of a connection means: the move that the client
    /// asks for, or why there is none. A login is out of place once the
    /// session is live, and an error.
    pub open spec fn action_of(received: Incoming) -> Result<PlayerAction, Error> {
        match Self::message_of(received) {
            Ok(ClientMessage::Login(_)) => Err(Error::UnexpectedLoginMessage),
            Ok(ClientMessage::Move(velocity)) => Ok(PlayerAction::Move(velocity)),
            Err(error) => Err(error),
        }
    }

    /// An orchestrator over `galaxy` without a live session.
    pub fn new(galaxy: Galaxy) -> (server: GameServer)
        ensures
            server.galaxy == galaxy,
            server@ == (GameServerView { galaxy: galaxy@, writers: Map::empty() }),
    {
        GameServer { galaxy, writers: HashMap::new() }
    }

    /// Services the interrupt channel: whether the loop is to end. A token
    /// ends it at once, and what is pending stays unserved; a channel that
    /// closed without a token does not.
    pub fn on_interrupt(&self, token: Option<()>) -> (stop: bool)
        ensures
            stop == token is Some,
    {
        token.is_some()
    }

    /// Makes a client's message of a read, or the error that says why not.
    pub fn next_message(received: Incoming) -> (message: Result<ClientMessage, Error>)
        ensures
            message == Self::message_of(received),
    {
        match received {
            Received::End => Err(Error::NothingToRead),
            Received::Failed(complaint) => Err(Error::WebSocketError(complaint)),
            Received::Text(Ok(message)) => Ok(message),
            Received::Text(Err(complaint)) => Err(Error::ClientMessageDeserializeError(complaint)),
            Received::Close => Err(Error::NormalClose),
            _ => Err(Error::UnexpectedNonTextMessageError),
        }
    }

    /// Reads an active connection: the move that the client asks for, or
    /// the error that ends the session. A login is rejected.
    pub fn read(received: Incoming) -> (action: Result<PlayerAction, Error>)
        ensures
            action == Self::action_of(received),
            action matches Ok(action) ==> action is Move,
    {
        match Self::next_message(received) {
            Ok(ClientMessage::Login(_)) => Err(Error::UnexpectedLoginMessage),
            Ok(ClientMessage::Move(velocity)) => Ok(PlayerAction::Move(velocity)),
            Err(error) => Err(error),
        }
    }

    /// Reads a connection for the first time: the login, or the error after
    /// which the connection is closed without another try.
    pub fn first_read(received: Incoming) -> (action: Result<PlayerAction, Error>)
        ensures
            action == Self::first_action_of(received),
    {
        match Self::next_message(received) {
            Ok(ClientMessage::Login(login)) => Ok(PlayerAction::Login(login.nickname)),
            Ok(_) => Err(Error::UnexpectedNonLoginMessage),
            Err(error) => Err(error),
        }
    }

    /// Answers a login with what the key-value store holds for the nickname
    /// ([`Galaxy::found_player`]).
    ///
    /// A player whom the store knows comes into the world. For a nickname
    /// that the store does not know, the numbers of a home system are drawn
    /// with `draw`, which is [`HomeSeed::draw`] unless chance is to be left
    /// out, and the system comes into the world; the player is made by
    /// [`GameServer::complete_login`], once the systems are saved. After any
    /// other error the login still succeeds, under an identifier drawn for
    /// this session.
    pub fn handle_login<D: FnOnce() -> HomeSeed>(
        &mut self,
        uuid: Option<String>,
        record: Option<Result<Player, String>>,
        draw: D,
    ) -> (admission: Admission)
        requires
            draw.requires(()),
            forall|seed: HomeSeed| draw.ensures((), seed) ==> seed.center <= 4,
        ensures
            match Galaxy::found_player(uuid, record) {
                Ok((uuid, player)) => {
                    &&& admission == Admission::Known(uuid)
                    &&& final(self)@ == old(self)@.with_player(uuid, player)
                },
                Err(Error::NoPlayerForNickname) => {
                    &&& admission matches Admission::Newcomer(system)
                    &&& is_random_uuid(system)
                    &&& exists|seed: HomeSeed, home: System|
                        draw.ensures((), seed) && home@ == seed.home() && final(self)@ == old(
                            self,
                        )@.with_system(system, home)
                },
                Err(_) => {
                    &&& admission matches Admission::Stranger(uuid)
                    &&& is_random_uuid(uuid)
                    &&& final(self)@ == old(self)@
                },
            },
    {
        match self.galaxy.load_player_by_nickname(uuid, record) {
            Ok(uuid) => Admission::Known(uuid),
            Err(Error::NoPlayerForNickname) => {
                let seed = draw();
                let home = seed.system();
                let ghost made = home;
                let system = self.galaxy.add_system(home);
                assert(draw.ensures((), seed) && made@ == seed.home() && self@ == old(
                    self,
                )@.with_system(system, made));
                Admission::Newcomer(system)
            },
            Err(_) => Admission::Stranger(new_uuid()),
        }
    }

    /// The player that a newcomer called `nickname` is, whose home system is
    /// `system`: they own and observe it, and stand at [`SPAWN`] in it.
    pub open spec fn newcomer(nickname: String, system: u128) -> Player {
        Player {
            coords: Vector3 { x: SPAWN, y: SPAWN, z: SPAWN },
            nickname,
            own_system_uuid: system,
            current_system_uuid: system,
        }
    }

    /// Makes the newcomer called `nickname`, who owns and observes the
    /// system `system`, once it is known how the saving of the systems
    /// went. Where it failed there is no player, and its error is the
    /// login's. The players are to be saved after a success, and the login
    /// stands or falls with that ([`GameServer::on_players_saved`]).
    pub fn complete_login(
        &mut self,
        nickname: String,
        system: u128,
        saved: Result<(), Error>,
    ) -> (uuid: Result<u128, Error>)
        ensures
            match saved {
                Ok(_) => {
                    &&& uuid matches Ok(uuid)
                    &&& is_random_uuid(uuid)
                    &&& final(self)@ == old(self)@.with_player(
                        uuid,
                        Self::newcomer(nickname, system),
                    )
                },
                Err(error) => uuid == Err::<u128, Error>(error) && final(self)@ == old(self)@,
            },
    {
        match saved {
            Ok(_) => {
                let player = Player::new(Vector3::new(SPAWN, SPAWN, SPAWN), nickname, system);
                Ok(self.galaxy.add_player(player))
            },
            Err(error) => Err(error),
        }
    }

    /// Services the end of a connection's first read. `action` is what
    /// [`GameServer::first_read`] made of it. For a login, `uuid` and
    /// `record` are what the key-value store holds for the nickname
    /// ([`Galaxy::found_player`]); the login is answered as
    /// [`GameServer::handle_login`] has it, with `draw` for the numbers of a
    /// home system, and a player who is admitted has their session on
    /// `connection` from now on. Anything but a login leaves the world and
    /// the live sessions as they were.
    pub fn on_first_read<D: FnOnce() -> HomeSeed>(
        &mut self,
        connection: u64,
        action: Result<PlayerAction, Error>,
        uuid: Option<String>,
        record: Option<Result<Player, String>>,
        draw: D,
    ) -> (welcome: Welcome)
        requires
            draw.requires(()),
            forall|seed: HomeSeed| draw.ensures((), seed) ==> seed.center <= 4,
        ensures
            match action {
                Ok(PlayerAction::Login(nickname)) => match Galaxy::found_player(uuid, record) {
                    Ok((uuid, player)) => {
                        &&& welcome == (Welcome::Active {
                            uuid,
                            replaced: old(self)@.writers.get(uuid),
                        })
                        &&& final(self)@ == old(self)@.with_player(uuid, player).with_writer(
                            uuid,
                            connection,
                        )
                    },
                    Err(Error::NoPlayerForNickname) => {
                        &&& welcome matches Welcome::Saving { nickname: newcomer, system }
                        &&& newcomer == nickname
                        &&& is_random_uuid(system)
                        &&& exists|seed: HomeSeed, home: System|
                            draw.ensures((), seed) && home@ == seed.home() && final(self)@ == old(
                                self,
                            )@.with_system(system, home)
                    },
                    Err(_) => {
                        &&& welcome matches Welcome::Active { uuid, replaced }
                        &&& is_random_uuid(uuid)
                        &&& replaced == old(self)@.writers.get(uuid)
                        &&& final(self)@ == old(self)@.with_writer(uuid, connection)
                    },
                },
                _ => welcome == Welcome::Refused && final(self)@ == old(self)@,
            },
    {
        match action {
            Ok(PlayerAction::Login(nickname)) => match self.handle_login(uuid, record, draw) {
                Admission::Known(uuid) | Admission::Stranger(uuid) => {
                    let replaced = self.writers.insert(uuid, connection);
                    Welcome::Active { uuid, replaced }
                },
                Admission::Newcomer(system) => Welcome::Saving { nickname, system },
            },
            _ => Welcome::Refused,
        }
    }

    /// Services the end of the saving that [`Welcome::Saving`] asked for.
    /// Where the systems were saved the newcomer is made
    /// ([`GameServer::complete_login`]); the players are to be saved then,
    /// and the newcomer has no session before they are. Where the systems
    /// were not saved, the connection is to be closed.
    pub fn on_saved(
        &mut self,
        nickname: String,
        system: u128,
        saved: Result<(), Error>,
    ) -> (welcome: Welcome)
        ensures
            match saved {
                Ok(_) => {
                    &&& welcome matches Welcome::SavingPlayers { uuid }
                    &&& is_random_uuid(uuid)
                    &&& final(self)@ == old(self)@.with_player(
                        uuid,
                        Self::newcomer(nickname, system),
                    )
                },
                Err(_) => welcome == Welcome::Refused && final(self)@ == old(self)@,
            },
    {
        match self.complete_login(nickname, system, saved) {
            Ok(uuid) => Welcome::SavingPlayers { uuid },
            Err(_) => Welcome::Refused,
        }
    }

    /// Services the end of the saving that [`Welcome::SavingPlayers`] asked
    /// for. `written` is the store's complaint about the first write that
    /// failed, if one did ([`Galaxy::players_saved`]). Where the players
    /// were saved, the newcomer `uuid` has their session on `connection`
    /// from now on. Where they were not, the login is undone: the player
    /// leaves the world again and has no session, the error has the store's
    /// words, and the connection is to be closed.
    pub fn on_players_saved(
        &mut self,
        connection: u64,
        uuid: u128,
        written: Result<(), String>,
    ) -> (welcome: Result<Welcome, Error>)
        ensures
            match written {
                Ok(_) => {
                    &&& welcome == Ok::<Welcome, Error>(
                        Welcome::Active { uuid, replaced: old(self)@.writers.get(uuid) },
                    )
                    &&& final(self)@ == old(self)@.with_writer(uuid, connection)
                },
                Err(complaint) => {
                    &&& welcome == Err::<Welcome, Error>(Error::SavePlayersSetError(complaint))
                    &&& final(self)@ == old(self)@.without(uuid)
                },
            },
    {
        match Galaxy::players_saved(written) {
            Ok(_) => {
                let replaced = self.writers.insert(uuid, connection);
                Ok(Welcome::Active { uuid, replaced })
            },
            Err(error) => {
                self.clean_player(uuid);
                Err(error)
            },
        }
    }

    /// Services the end of a read on the active connection of the player
    /// `uuid`. `action` is what [`GameServer::read`] made of it. After a
    /// move the connection is read on. After anything else, which is an
    /// error of the read, a login out of place among them, the session is
    /// over ([`GameServer::clean_player`]).
    pub fn on_read(&mut self, uuid: u128, action: Result<PlayerAction, Error>) -> (reading: Reading)
        ensures
            match action {
                Ok(PlayerAction::Move(_)) => reading == Reading::Again && final(self)@ == old(
                    self,
                )@,
                _ => {
                    &&& reading == (Reading::Over { writer: old(self)@.writers.get(uuid) })
                    &&& final(self)@ == old(self)@.without(uuid)
                },
            },
    {
        match action {
            Ok(PlayerAction::Move(_)) => Reading::Again,
            _ => Reading::Over { writer: self.clean_player(uuid) },
        }
    }

    /// What a tick has for the player `player` of the world: the system
    /// that they observe, for the connection of their session, unless the
    /// system or, the system being there, the session is missing.
    pub open spec fn snapshot_of(&self, player: u128) -> Snapshot {
        let system = self.galaxy.players@[player].current_system_uuid;
        if !self.galaxy.systems@.contains_key(system) {
            Snapshot::NoSystem { player, system }
        } else if !self.writers@.contains_key(player) {
            Snapshot::NoWriter { player, system }
        } else {
            Snapshot::Feed { player, writer: self.writers@[player], system }
        }
    }

    /// Services the tick timer. The world is advanced with `advance`
    /// ([`Galaxy::update`]); a failure of that is returned and keeps nothing
    /// from being served. Then the snapshots are named
    /// ([`GameServer::snapshots`]), of the world as it is after the advance.
    /// Feeding does not flush.
    pub fn on_tick<A: Fn(&Body) -> Result<Body, Error>>(&mut self, advance: &A) -> (tick: (
        Result<(), Error>,
        Vec<Snapshot>,
    ))
        requires
            forall|body: &Body| advance.requires((body,)),
        ensures
            final(self)@ == old(self)@.with_systems(final(self)@.galaxy.systems),
            exists|order: Seq<u128>, outcomes: Seq<Seq<Result<Body, Error>>>| #[trigger]
                Galaxy::updated(
                    old(self)@.galaxy.systems,
                    *advance,
                    order,
                    outcomes,
                    final(self)@.galaxy.systems,
                ) && tick.0 == System::outcome(
                    outcomes.map_values(
                        |of_system: Seq<Result<Body, Error>>| System::outcome(of_system),
                    ),
                ),
            final(self).serves(tick.1@),
    {
        let updated = self.galaxy.update(advance);
        proof {
            let (order, outcomes) = choose|
                order: Seq<u128>,
                outcomes: Seq<Seq<Result<Body, Error>>>,
            | #[trigger]
                Galaxy::updated(
                    old(self)@.galaxy.systems,
                    *advance,
                    order,
                    outcomes,
                    self@.galaxy.systems,
                ) && updated == System::outcome(
                    outcomes.map_values(
                        |of_system: Seq<Result<Body, Error>>| System::outcome(of_system),
                    ),
                );
            assert(Galaxy::updated(
                old(self)@.galaxy.systems,
                *advance,
                order,
                outcomes,
                self@.galaxy.systems,
            ));
        }
        (updated, self.snapshots())
    }

    /// Whether `snapshots` are what a tick has for the players of the world:
    /// for each player one ([`GameServer::snapshot_of`]), and none else.
    pub open spec fn serves(&self, snapshots: Seq<Snapshot>) -> bool {
        &&& forall|i: int, j: int|
            0 <= i < j < snapshots.len() ==> (#[trigger] snapshots[i]).player()
                != (#[trigger] snapshots[j]).player()
        &&& forall|player: u128| #[trigger]
            self.galaxy.players@.contains_key(player) ==> exists|i: int|
                0 <= i < snapshots.len() && (#[trigger] snapshots[i]).player() == player
        &&& forall|i: int|
            0 <= i < snapshots.len() ==> {
                &&& self.galaxy.players@.contains_key((#[trigger] snapshots[i]).player())
                &&& snapshots[i] == self.snapshot_of(snapshots[i].player())
            }
    }

    /// At a tick a player is fed if and only if they are in the world with a
    /// live session and observe a system of the world; then they are fed
    /// that system, on the connection of their session.
    pub proof fn fed_are_the_live(&self, snapshots: Seq<Snapshot>, player: u128)
        requires
            self.serves(snapshots),
        ensures
            (exists|i: int|
                0 <= i < snapshots.len() && (#[trigger] snapshots[i]).player() == player
                    && snapshots[i] is Feed) <==> {
                &&& self.galaxy.players@.contains_key(player)
                &&& self.writers@.contains_key(player)
                &&& self.galaxy.systems@.contains_key(
                    self.galaxy.players@[player].current_system_uuid,
                )
            },
            forall|i: int|
                0 <= i < snapshots.len() && (#[trigger] snapshots[i]).player() == player
                    && snapshots[i] is Feed ==> snapshots[i] == (Snapshot::Feed {
                    player,
                    writer: self.writers@[player],
                    system: self.galaxy.players@[player].current_system_uuid,
                }),
    {
    }

    /// What a tick has for the players of the world, in no particular
    /// order: for each player the snapshot of the system that they observe,
    /// to be fed to the write half of the connection of their session. A
    /// player whose system or session is missing gets none, which is said
    /// of them, and the others get theirs all the same.
    pub fn snapshots(&self) -> (snapshots: Vec<Snapshot>)
        ensures
            self.serves(snapshots@),
    {
        let players = uuids(&self.galaxy.players);
        let mut snapshots: Vec<Snapshot> = Vec::new();
        let mut at: usize = 0;
        while at < players.len()
            invariant
                players@.no_duplicates(),
                players@.to_set() == self.galaxy.players@.dom(),
                at <= players@.len(),
                snapshots@.len() == at,
                forall|i: int|
                    0 <= i < at ==> (#[trigger] snapshots@[i]).player() == players@[i]
                        && snapshots@[i] == self.snapshot_of(players@[i]),
            decreases players@.len() - at,
        {
            let player = players[at];
            if let Some(found) = self.galaxy.players.get(&player) {
                let system = found.current_system_uuid;
                let snapshot = if !self.galaxy.systems.contains_key(&system) {
                    Snapshot::NoSystem { player, system }
                } else {
                    match self.writers.get(&player) {
                        None => Snapshot::NoWriter { player, system },
                        Some(writer) => Snapshot::Feed { player, writer: *writer, system },
                    }
                };
                snapshots.push(snapshot);
            }
            at = at + 1;
        }
        proof {
            assert forall|player: u128| #[trigger]
                self.galaxy.players@.contains_key(player) implies exists|i: int|
                0 <= i < snapshots@.len() && (#[trigger] snapshots@[i]).player() == player by {
                let i = choose|i: int| 0 <= i < players@.len() && players@[i] == player;
                assert(snapshots@[i].player() == player);
            }
        }
        snapshots
    }

    /// Whether `writers` are the connections to flush, player by player in
    /// the order `order`: each player with a live session is there once,
    /// with the connection of their session.
    pub open spec fn flushes(&self, order: Seq<u128>, writers: Seq<u64>) -> bool {
        &&& order.no_duplicates()
        &&& order.to_set() == self.writers@.dom()
        &&& writers.len() == order.len()
        &&& forall|i: int| 0 <= i < order.len() ==> #[trigger] writers[i] == self.writers@[order[i]]
    }

    /// Services the flush timer: the connections whose write halves are to
    /// be flushed, one for each live session, the players in no particular
    /// order.
    pub fn on_flush(&self) -> (writers: Vec<u64>)
        ensures
            exists|order: Seq<u128>| #[trigger] self.flushes(order, writers@),
    {
        let order = uuids(&self.writers);
        let mut writers: Vec<u64> = Vec::new();
        let mut at: usize = 0;
        while at < order.len()
            invariant
                order@.to_set() == self.writers@.dom(),
                at <= order@.len(),
                writers@.len() == at,
                forall|i: int| 0 <= i < at ==> #[trigger] writers@[i] == self.writers@[order@[i]],
            decreases order@.len() - at,
        {
            assert(order@.to_set().contains(order@[at as int]));
            if let Some(writer) = self.writers.get(&order[at]) {
                writers.push(*writer);
            }
            at = at + 1;
        }
        assert(self.flushes(order@, writers@));
        writers
    }

    /// The nickname of a player, or `<unknown>` for one who is not in the world.
    pub fn player_name(&self, uuid: u128) -> (name: String)
        ensures
            name@ == if self.galaxy.players@.contains_key(uuid) {
                self.galaxy.players@[uuid].nickname@
            } else {
                "<unknown>"@
            },
    {
        match self.galaxy.players.get(&uuid) {
            Some(player) => player.nickname.clone(),
            None => String::from_str("<unknown>"),
        }
    }

    /// Ends a player's session: the player leaves the live sessions and the
    /// world in memory, and what the key-value store holds stays. Returns
    /// the connection whose write half was theirs, if they had one.
    pub fn clean_player(&mut self, uuid: u128) -> (writer: Option<u64>)
        ensures
            final(self)@ == old(self)@.without(uuid),
            writer == old(self)@.writers.get(uuid),
    {
        let writer = self.writers.remove(&uuid);
        self.galaxy.players.remove(&uuid);
        writer
    }
}

} // verus!
