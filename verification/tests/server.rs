use space_build::error::Error;
use space_build::game_server::{
    Admission, ClientMessage, GameServer, HomeSeed, Incoming, Login, PlayerAction, Reading,
    Received, Snapshot, Welcome, SPAWN,
};
use space_build::player_client::PlayerClient;
use space_build::world::body::{Body, BodyType};
use space_build::world::galaxy::Galaxy;
use space_build::world::player::Player;
use space_build::world::system::{CenterType, System};
use space_build::world::vector::Vector3;
use std::collections::BTreeMap;
use uuid::Uuid;

/// A key-value store in memory, shared by the servers of a test.
struct Store {
    entries: BTreeMap<String, String>,
}

/// Carries writes out, up to the first under a key of the kind `broken`,
/// which fails.
fn carry_out(
    store: &mut Store,
    writes: Vec<(String, String)>,
    broken: &str,
) -> Result<(), String> {
    for (key, value) in writes {
        if !broken.is_empty() && key.contains(broken) {
            return Err(format!("cannot write {key}"));
        }
        store.entries.insert(key, value);
    }
    Ok(())
}

fn encode_system(system: &System) -> String {
    format!(
        "{} {} {} {} {} {} {:?}",
        system.coords.x,
        system.coords.y,
        system.coords.z,
        system.offset.x,
        system.offset.y,
        system.offset.z,
        system.center_type
    )
}

fn decode_system(record: &str) -> Option<System> {
    let parts: Vec<&str> = record.split(' ').collect();
    if parts.len() != 7 {
        return None;
    }
    let center_type = match parts[6] {
        "OneStar" => CenterType::OneStar,
        "TwoStars" => CenterType::TwoStars,
        "ThreeStars" => CenterType::ThreeStars,
        "BlackHole" => CenterType::BlackHole,
        "NeutronStar" => CenterType::NeutronStar,
        _ => return None,
    };
    Some(System::new(
        Vector3::new(parts[0].parse().ok()?, parts[1].parse().ok()?, parts[2].parse().ok()?),
        Vector3::new(parts[3].parse().ok()?, parts[4].parse().ok()?, parts[5].parse().ok()?),
        center_type,
    ))
}

fn encode_player(player: &Player) -> String {
    format!(
        "{} {} {} {} {} {}",
        player.coords.x,
        player.coords.y,
        player.coords.z,
        player.own_system_uuid,
        player.current_system_uuid,
        player.nickname
    )
}

fn decode_player(record: &str) -> Result<Player, String> {
    let parts: Vec<&str> = record.splitn(6, ' ').collect();
    if parts.len() != 6 {
        return Err("not a player".to_string());
    }
    let number = |text: &str| text.parse::<u32>().map_err(|error| error.to_string());
    let uuid = |text: &str| text.parse::<u128>().map_err(|error| error.to_string());
    Ok(Player {
        coords: Vector3::new(number(parts[0])?, number(parts[1])?, number(parts[2])?),
        own_system_uuid: uuid(parts[3])?,
        current_system_uuid: uuid(parts[4])?,
        nickname: parts[5].to_string(),
    })
}

/// Serves the first message of a connection as a server's loop does: it
/// asks the store for the player, and saves what a login makes.
fn first_message(
    server: &mut GameServer,
    store: &mut Store,
    connection: u64,
    received: Incoming,
) -> Welcome {
    first_message_on(server, store, connection, received, "").unwrap()
}

/// The same on a store that fails to write under keys of the kind `broken`.
fn first_message_on(
    server: &mut GameServer,
    store: &mut Store,
    connection: u64,
    received: Incoming,
    broken: &str,
) -> Result<Welcome, Error> {
    let action = GameServer::first_read(received);
    let mut uuid = None;
    let mut record = None;
    if let Ok(PlayerAction::Login(nickname)) = &action {
        uuid = store.entries.get(&server.galaxy.nickname_key(nickname)).cloned();
        if let Some(text) = &uuid {
            record = store
                .entries
                .get(&server.galaxy.player_key(text))
                .map(|record| decode_player(record));
        }
    }
    match server.on_first_read(connection, action, uuid, record, HomeSeed::draw) {
        Welcome::Saving { nickname, system } => {
            let saved = server
                .galaxy
                .save_systems(|system| Ok(encode_system(system)))
                .and_then(|writes| Galaxy::systems_saved(carry_out(store, writes, broken)));
            match server.on_saved(nickname, system, saved) {
                Welcome::SavingPlayers { uuid } => {
                    let writes = server.galaxy.save_players(|player| Ok(encode_player(player)));
                    let written = carry_out(store, writes, broken);
                    server.on_players_saved(connection, uuid, written)
                }
                welcome => Ok(welcome),
            }
        }
        welcome => Ok(welcome),
    }
}

fn start(store: &Store, db_name: &str) -> GameServer {
    let mut galaxy = Galaxy::new(db_name.to_string());
    let mut found = Vec::new();
    for (key, record) in &store.entries {
        if key.starts_with(galaxy.systems_pattern().strip_suffix('*').unwrap()) {
            found.push((key.clone(), decode_system(record)));
        }
    }
    galaxy.load_all(Ok(found)).unwrap();
    GameServer::new(galaxy)
}

fn login(nickname: &str) -> Incoming {
    Received::Text(Ok(PlayerClient::login(nickname.to_string())))
}

fn step(x: f32) -> Incoming {
    Received::Text(Ok(ClientMessage::Move(Vector3::new(x.to_bits(), 0, 0))))
}

#[test]
fn test_08_all() {
    let mut store = Store { entries: BTreeMap::new() };
    let mut game_server = start(&store, "space_build_tests");

    let welcome = first_message(&mut game_server, &mut store, 1, login("test"));
    assert!(matches!(welcome, Welcome::Active { .. }));

    assert!(matches!(game_server.snapshots()[..], [Snapshot::Feed { writer: 1, .. }]));
    assert_eq!(vec![1], game_server.on_flush());

    assert!(game_server.on_interrupt(Some(())));
}

#[test]
fn a_login_twice_makes_one_player_and_one_system() {
    let mut store = Store { entries: BTreeMap::new() };

    let mut first = start(&store, "space_build_tests");
    assert!(first.galaxy.systems.is_empty());
    let Welcome::Active { uuid, replaced: None } =
        first_message(&mut first, &mut store, 1, login("newcomer"))
    else {
        panic!("the first login was not admitted");
    };
    assert_eq!(1, first.galaxy.systems.len());
    assert_eq!(1, first.galaxy.players.len());
    let player = first.galaxy.players.get(&uuid).unwrap();
    let system = player.own_system_uuid;
    assert!(first.galaxy.systems.contains_key(&system));
    assert_eq!(system, player.current_system_uuid);
    assert_eq!("newcomer", player.nickname);
    assert_eq!(Vector3::new(100.0f32.to_bits(), 100.0f32.to_bits(), 100.0f32.to_bits()), player.coords);
    assert_eq!(3, store.entries.len());
    assert!(store.entries.contains_key(&format!(
        "space_build_tests:system:{}",
        Uuid::from_u128(system)
    )));
    assert!(store.entries.contains_key(&format!(
        "space_build_tests:player:{}",
        Uuid::from_u128(uuid)
    )));
    assert_eq!(
        Some(&Uuid::from_u128(uuid).to_string()),
        store.entries.get("space_build_tests:nickname_to_uuid:newcomer")
    );

    let mut second = start(&store, "space_build_tests");
    assert_eq!(1, second.galaxy.systems.len());
    assert!(second.galaxy.players.is_empty());
    let welcome = first_message(&mut second, &mut store, 7, login("newcomer"));
    assert_eq!(Welcome::Active { uuid, replaced: None }, welcome);
    assert_eq!(1, second.galaxy.systems.len());
    assert!(second.galaxy.systems.contains_key(&system));
    assert_eq!(1, second.galaxy.players.len());
    assert_eq!(system, second.galaxy.players.get(&uuid).unwrap().own_system_uuid);
    assert_eq!(3, store.entries.len());
}

#[test]
fn a_login_is_served_a_snapshot_at_the_next_tick() {
    let mut store = Store { entries: BTreeMap::new() };
    let mut server = start(&store, "space_build_tests");
    let Welcome::Active { uuid, .. } = first_message(&mut server, &mut store, 4, login("bob"))
    else {
        panic!("the login was not admitted");
    };
    assert_eq!(Some(&4), server.writers.get(&uuid));
    let system = server.galaxy.players.get(&uuid).unwrap().current_system_uuid;
    assert_eq!(vec![Snapshot::Feed { player: uuid, writer: 4, system }], server.snapshots());
    assert_eq!(vec![Snapshot::Feed { player: uuid, writer: 4, system }], server.snapshots());
    assert_eq!(vec![4], server.on_flush());
}

#[test]
fn malformed_first_data_never_makes_a_session() {
    let mut store = Store { entries: BTreeMap::new() };
    let mut server = start(&store, "space_build_tests");
    let malformed: Vec<Incoming> = vec![
        Received::Text(Err("expected value at line 1 column 1".to_string())),
        Received::Binary,
        Received::Ping,
        Received::Pong,
        Received::Frame,
        Received::Close,
        Received::End,
        Received::Failed("connection reset".to_string()),
        step(1.),
    ];
    for received in malformed {
        assert_eq!(Welcome::Refused, first_message(&mut server, &mut store, 9, received));
        assert!(server.writers.is_empty());
        assert!(server.galaxy.players.is_empty());
        assert!(server.galaxy.systems.is_empty());
        assert!(server.snapshots().is_empty());
        assert!(server.on_flush().is_empty());
    }
    assert!(store.entries.is_empty());
}

#[test]
fn a_shutdown_leaves_a_pending_read_unserved() {
    let mut store = Store { entries: BTreeMap::new() };
    let mut server = start(&store, "space_build_tests");
    let Welcome::Active { uuid, .. } = first_message(&mut server, &mut store, 2, login("bob"))
    else {
        panic!("the login was not admitted");
    };
    assert!(server.on_interrupt(Some(())));
    assert!(server.writers.contains_key(&uuid));
    assert!(server.galaxy.players.contains_key(&uuid));
    assert!(!server.on_interrupt(None));
}

#[test]
fn a_new_server_has_no_session() {
    let mut galaxy = Galaxy::new("ns".to_string());
    let system = galaxy.add_system(System::default());
    let server = GameServer::new(galaxy);
    assert!(server.writers.is_empty());
    assert!(server.on_flush().is_empty());
    assert!(server.snapshots().is_empty());
    assert!(server.galaxy.systems.contains_key(&system));
    assert_eq!("ns", server.galaxy.db_name);
}

#[test]
fn the_text_of_a_read_can_be_made_into_something() {
    let length = |text: String| text.len();
    assert_eq!(Received::Text(3), Received::Text("abc".to_string()).map(length));
    assert_eq!(Received::End, Received::<String>::End.map(length));
    assert_eq!(
        Received::Failed("reset".to_string()),
        Received::<String>::Failed("reset".to_string()).map(length)
    );
    assert_eq!(Received::Binary, Received::<String>::Binary.map(length));
    assert_eq!(Received::Ping, Received::<String>::Ping.map(length));
    assert_eq!(Received::Pong, Received::<String>::Pong.map(length));
    assert_eq!(Received::Close, Received::<String>::Close.map(length));
    assert_eq!(Received::Frame, Received::<String>::Frame.map(length));
}

#[test]
fn reads_are_made_into_messages() {
    let login = ClientMessage::Login(Login { nickname: "bob".to_string() });
    let step = ClientMessage::Move(Vector3::new(1, 2, 3));
    assert_eq!(Ok(login.clone()), GameServer::next_message(Received::Text(Ok(login))));
    assert_eq!(Ok(step.clone()), GameServer::next_message(Received::Text(Ok(step))));
    assert_eq!(Err(Error::NothingToRead), GameServer::next_message(Received::End));
    assert_eq!(
        Err(Error::WebSocketError("reset".to_string())),
        GameServer::next_message(Received::Failed("reset".to_string()))
    );
    assert_eq!(
        Err(Error::ClientMessageDeserializeError("bad".to_string())),
        GameServer::next_message(Received::Text(Err("bad".to_string())))
    );
    assert_eq!(Err(Error::NormalClose), GameServer::next_message(Received::Close));
    assert_eq!(
        Err(Error::UnexpectedNonTextMessageError),
        GameServer::next_message(Received::Binary)
    );
    assert_eq!(Err(Error::UnexpectedNonTextMessageError), GameServer::next_message(Received::Ping));
    assert_eq!(Err(Error::UnexpectedNonTextMessageError), GameServer::next_message(Received::Pong));
    assert_eq!(
        Err(Error::UnexpectedNonTextMessageError),
        GameServer::next_message(Received::Frame)
    );
}

#[test]
fn only_a_login_will_do_at_first() {
    assert_eq!(Ok(PlayerAction::Login("bob".to_string())), GameServer::first_read(login("bob")));
    assert_eq!(Err(Error::UnexpectedNonLoginMessage), GameServer::first_read(step(1.)));
    assert_eq!(Err(Error::NormalClose), GameServer::first_read(Received::Close));
    assert_eq!(Err(Error::NothingToRead), GameServer::first_read(Received::End));
    assert_eq!(
        Err(Error::ClientMessageDeserializeError("bad".to_string())),
        GameServer::first_read(Received::Text(Err("bad".to_string())))
    );
}

#[test]
fn a_later_read_gives_the_action_asked_for() {
    assert_eq!(
        Ok(PlayerAction::Move(Vector3::new(2.5f32.to_bits(), 0, 0))),
        GameServer::read(step(2.5))
    );
    assert_eq!(Err(Error::UnexpectedLoginMessage), GameServer::read(login("bob")));
    assert_eq!(Err(Error::UnexpectedLoginMessage), GameServer::read(login("")));
    assert_eq!(
        Err(Error::ClientMessageDeserializeError("bad".to_string())),
        GameServer::read(Received::Text(Err("bad".to_string())))
    );
    assert_eq!(Err(Error::NothingToRead), GameServer::read(Received::End));
    assert_eq!(Err(Error::UnexpectedNonTextMessageError), GameServer::read(Received::Ping));
    assert_eq!(Err(Error::NormalClose), GameServer::read(Received::Close));
    assert_eq!(
        Err(Error::WebSocketError("reset".to_string())),
        GameServer::read(Received::Failed("reset".to_string()))
    );
}

#[test]
fn a_move_keeps_the_session_and_anything_else_ends_it() {
    let mut store = Store { entries: BTreeMap::new() };
    let mut server = start(&store, "space_build_tests");
    let Welcome::Active { uuid: bob, .. } =
        first_message(&mut server, &mut store, 2, login("bob"))
    else {
        panic!("the login was not admitted");
    };
    let Welcome::Active { uuid: eve, .. } =
        first_message(&mut server, &mut store, 3, login("eve"))
    else {
        panic!("the login was not admitted");
    };
    let saved = store.entries.len();
    assert_eq!(6, saved);

    assert_eq!(Reading::Again, server.on_read(bob, GameServer::read(step(1.))));
    assert_eq!(2, server.writers.len());
    assert_eq!(2, server.galaxy.players.len());

    assert_eq!(
        Reading::Over { writer: Some(2) },
        server.on_read(bob, GameServer::read(Received::Close))
    );
    assert!(!server.writers.contains_key(&bob));
    assert!(!server.galaxy.players.contains_key(&bob));
    assert_eq!(2, server.galaxy.systems.len());
    assert_eq!(saved, store.entries.len());
    assert_eq!(1, server.snapshots().len());
    assert_eq!(vec![3], server.on_flush());

    assert_eq!(
        Reading::Over { writer: Some(3) },
        server.on_read(eve, GameServer::read(login("eve")))
    );
    assert!(server.writers.is_empty());
    assert!(server.galaxy.players.is_empty());
    assert_eq!(Reading::Over { writer: None }, server.on_read(eve, Err(Error::NothingToRead)));

    let welcome = first_message(&mut server, &mut store, 5, login("bob"));
    assert_eq!(Welcome::Active { uuid: bob, replaced: None }, welcome);
    assert_eq!(2, server.galaxy.systems.len());
}

#[test]
fn a_second_session_of_a_player_replaces_the_first() {
    let mut store = Store { entries: BTreeMap::new() };
    let mut server = start(&store, "space_build_tests");
    let Welcome::Active { uuid, replaced: None } =
        first_message(&mut server, &mut store, 2, login("bob"))
    else {
        panic!("the login was not admitted");
    };
    assert_eq!(
        Welcome::Active { uuid, replaced: Some(2) },
        first_message(&mut server, &mut store, 8, login("bob"))
    );
    assert_eq!(vec![8], server.on_flush());
    assert_eq!(Some(8), server.clean_player(uuid));
    assert_eq!(None, server.clean_player(uuid));
}

#[test]
fn a_fault_of_the_store_still_admits_under_a_fresh_identifier() {
    let mut server = GameServer::new(Galaxy::new("ns".to_string()));
    let text = "f599a2ae-58a8-449f-8007-80de1ea791e9".to_string();
    let Admission::Stranger(uuid) = server.handle_login(Some(text.clone()), None, HomeSeed::draw)
    else {
        panic!("admitted otherwise");
    };
    assert_eq!(4, Uuid::from_u128(uuid).get_version_num());
    assert!(server.galaxy.players.is_empty());
    assert!(server.galaxy.systems.is_empty());

    let welcome = server.on_first_read(
        3,
        Ok(PlayerAction::Login("bob".to_string())),
        Some(text),
        Some(Err("bad record".to_string())),
        HomeSeed::draw,
    );
    let Welcome::Active { uuid, replaced: None } = welcome else {
        panic!("not admitted");
    };
    assert_eq!(Some(&3), server.writers.get(&uuid));
    assert!(server.galaxy.players.is_empty());
    assert!(server.snapshots().is_empty());
    assert_eq!(vec![3], server.on_flush());
    assert_eq!("<unknown>", server.player_name(uuid));
}

#[test]
fn a_known_player_comes_into_the_world() {
    let mut server = GameServer::new(Galaxy::new("ns".to_string()));
    let player = Player::new(Vector3::new(1, 2, 3), "bob".to_string(), 77);
    let text = "f599a2ae-58a8-449f-8007-80de1ea791e9".to_string();
    let uuid = 0xf599a2ae_58a8_449f_8007_80de1ea791e9;
    assert_eq!(
        Admission::Known(uuid),
        server.handle_login(Some(text), Some(Ok(player)), HomeSeed::draw)
    );
    assert_eq!("bob", server.player_name(uuid));
    assert_eq!("<unknown>", server.player_name(1));
    assert!(server.writers.is_empty());
    assert_eq!(vec![Snapshot::NoSystem { player: uuid, system: 77 }], server.snapshots());
}

#[test]
fn a_newcomer_gets_a_home_system_and_then_a_player() {
    let mut server = GameServer::new(Galaxy::new("ns".to_string()));
    let Admission::Newcomer(system) = server.handle_login(None, None, HomeSeed::draw) else {
        panic!("admitted otherwise");
    };
    let home = server.galaxy.systems.get(&system).unwrap();
    assert!(home.bodies.is_empty());
    assert!((-15000..15000).contains(&home.coords.x));
    assert!((-2000..2000).contains(&home.coords.y));
    assert!((-15000..15000).contains(&home.coords.z));
    assert!((-100000..100000).contains(&home.offset.x));
    assert!((-100000..100000).contains(&home.offset.y));
    assert!((-100000..100000).contains(&home.offset.z));
    assert_ne!(CenterType::NeutronStar, home.center_type);
    assert!(server.galaxy.players.is_empty());

    let failed = Error::SaveSystemsSetError("down".to_string());
    assert_eq!(
        Err(failed.clone()),
        server.complete_login("bob".to_string(), system, Err(failed.clone()))
    );
    assert!(server.galaxy.players.is_empty());
    assert_eq!(Welcome::Refused, server.on_saved("bob".to_string(), system, Err(failed)));
    assert!(server.writers.is_empty());
    assert!(server.galaxy.players.is_empty());
    assert_eq!(1, server.galaxy.systems.len());

    let Welcome::SavingPlayers { uuid } = server.on_saved("eve".to_string(), system, Ok(()))
    else {
        panic!("answered otherwise");
    };
    assert_eq!("eve", server.player_name(uuid));
    assert!(server.writers.is_empty());
    assert_eq!(
        Ok(Welcome::Active { uuid, replaced: None }),
        server.on_players_saved(5, uuid, Ok(()))
    );
    assert_eq!(Some(&5), server.writers.get(&uuid));
    assert_eq!(Some(5), server.clean_player(uuid));

    let uuid = server.complete_login("bob".to_string(), system, Ok(())).unwrap();
    let player = server.galaxy.players.get(&uuid).unwrap();
    assert_eq!(Vector3::new(SPAWN, SPAWN, SPAWN), player.coords);
    assert_eq!(100.0, f32::from_bits(SPAWN));
    assert_eq!("bob", player.nickname);
    assert_eq!(system, player.own_system_uuid);
    assert_eq!(system, player.current_system_uuid);
    assert!(server.writers.is_empty());
}

#[test]
fn chance_can_be_left_out_of_a_home_system() {
    let mut server = GameServer::new(Galaxy::new("ns".to_string()));
    let seed =
        HomeSeed { coords: Vector3::new(-3, 4, 5), offset: Vector3::new(6, -7, 8), center: 3 };
    let Welcome::Saving { nickname, system } = server.on_first_read(
        1,
        Ok(PlayerAction::Login("bob".to_string())),
        None,
        None,
        || seed,
    ) else {
        panic!("answered otherwise");
    };
    assert_eq!("bob", nickname);
    assert_eq!(1, server.galaxy.systems.len());
    let home = server.galaxy.systems.get(&system).unwrap();
    assert_eq!(Vector3::new(-3, 4, 5), home.coords);
    assert_eq!(Vector3::new(6, -7, 8), home.offset);
    assert_eq!(CenterType::BlackHole, home.center_type);
    assert!(home.bodies.is_empty());
    assert!(server.writers.is_empty());
    assert!(server.galaxy.players.is_empty());

    let known = Player::new(Vector3::new(1, 2, 3), "eve".to_string(), 77);
    let text = "f599a2ae-58a8-449f-8007-80de1ea791e9".to_string();
    let welcome = server.on_first_read(
        2,
        Ok(PlayerAction::Login("eve".to_string())),
        Some(text),
        Some(Ok(known)),
        || panic!("nothing is drawn for a player who is known"),
    );
    assert_eq!(
        Welcome::Active { uuid: 0xf599a2ae_58a8_449f_8007_80de1ea791e9, replaced: None },
        welcome
    );
    assert_eq!(1, server.galaxy.systems.len());
}

#[test]
fn a_failed_write_of_the_players_undoes_the_login() {
    let mut store = Store { entries: BTreeMap::new() };
    let mut server = start(&store, "space_build_tests");
    let Welcome::Active { uuid: eve, .. } =
        first_message(&mut server, &mut store, 1, login("eve"))
    else {
        panic!("the login was not admitted");
    };

    for broken in [":player:", ":nickname_to_uuid:"] {
        let welcome = first_message_on(&mut server, &mut store, 2, login("bob"), broken);
        let Err(Error::SavePlayersSetError(words)) = welcome else {
            panic!("the failure was passed over");
        };
        assert!(words.starts_with("cannot write space_build_tests"));
        assert!(words.contains(broken));
        assert_eq!(1, server.galaxy.players.len());
        assert!(server.galaxy.players.contains_key(&eve));
        assert_eq!(vec![1], server.on_flush());
        assert!(!store.entries.contains_key("space_build_tests:nickname_to_uuid:bob"));
    }

    let mut server = GameServer::new(Galaxy::new("ns".to_string()));
    let uuid = server.galaxy.add_player(Player::new(Vector3::new(0, 0, 0), "bob".to_string(), 1));
    server.writers.insert(uuid, 9);
    assert_eq!(
        Err(Error::SavePlayersSetError("down".to_string())),
        server.on_players_saved(3, uuid, Err("down".to_string()))
    );
    assert!(server.galaxy.players.is_empty());
    assert!(server.writers.is_empty());
}

#[test]
fn a_failed_write_of_the_systems_refuses_the_login() {
    let mut store = Store { entries: BTreeMap::new() };
    let mut server = start(&store, "space_build_tests");
    let welcome = first_message_on(&mut server, &mut store, 2, login("bob"), ":system:");
    assert_eq!(Ok(Welcome::Refused), welcome);
    assert!(server.galaxy.players.is_empty());
    assert!(server.writers.is_empty());
    assert_eq!(1, server.galaxy.systems.len());
    assert!(store.entries.is_empty());
}

#[test]
fn every_session_is_flushed_once() {
    let mut server = GameServer::new(Galaxy::new("ns".to_string()));
    assert!(server.on_flush().is_empty());
    server.writers.insert(1, 7);
    server.writers.insert(2, 7);
    server.writers.insert(3, 8);
    let mut writers = server.on_flush();
    writers.sort();
    assert_eq!(vec![7, 7, 8], writers);
}

#[test]
fn a_home_system_is_what_its_seed_says() {
    let seed =
        HomeSeed { coords: Vector3::new(-3, 4, 5), offset: Vector3::new(6, -7, 8), center: 2 };
    let home = seed.system();
    assert_eq!(Vector3::new(-3, 4, 5), home.coords);
    assert_eq!(Vector3::new(6, -7, 8), home.offset);
    assert_eq!(CenterType::ThreeStars, home.center_type);
    assert!(home.bodies.is_empty());
}

#[test]
fn seeds_are_drawn_inside_their_ranges() {
    let mut centers = [false; 4];
    let mut low = false;
    let mut high = false;
    for _ in 0..2000 {
        let seed = HomeSeed::draw();
        assert!((-15000..15000).contains(&seed.coords.x));
        assert!((-2000..2000).contains(&seed.coords.y));
        assert!((-15000..15000).contains(&seed.coords.z));
        assert!((-100000..100000).contains(&seed.offset.x));
        assert!((-100000..100000).contains(&seed.offset.y));
        assert!((-100000..100000).contains(&seed.offset.z));
        assert!(seed.center < 4);
        centers[seed.center as usize] = true;
        low = low || seed.coords.x < 0;
        high = high || seed.coords.x > 0;
    }
    assert_eq!([true; 4], centers);
    assert!(low && high);
}

#[test]
fn a_tick_serves_those_with_a_system_and_a_session() {
    let mut server = GameServer::new(Galaxy::new("ns".to_string()));
    let here = server.galaxy.add_system(System::default());
    let with_both = server.galaxy.add_player(Player::new(Vector3::new(0, 0, 0), "a".to_string(), here));
    let without_session =
        server.galaxy.add_player(Player::new(Vector3::new(0, 0, 0), "b".to_string(), here));
    let without_system =
        server.galaxy.add_player(Player::new(Vector3::new(0, 0, 0), "c".to_string(), 12345));
    let without_either =
        server.galaxy.add_player(Player::new(Vector3::new(0, 0, 0), "e".to_string(), 54321));
    let mut visitor = Player::new(Vector3::new(0, 0, 0), "d".to_string(), 12345);
    visitor.current_system_uuid = here;
    let visiting = server.galaxy.add_player(visitor);
    server.writers.insert(with_both, 1);
    server.writers.insert(without_system, 2);
    server.writers.insert(visiting, 3);
    server.writers.insert(999, 4);

    let snapshots = server.snapshots();
    assert_eq!(5, snapshots.len());
    assert!(snapshots.contains(&Snapshot::Feed { player: with_both, writer: 1, system: here }));
    assert!(snapshots.contains(&Snapshot::Feed { player: visiting, writer: 3, system: here }));
    assert!(snapshots.contains(&Snapshot::NoWriter { player: without_session, system: here }));
    assert!(snapshots.contains(&Snapshot::NoSystem { player: without_system, system: 12345 }));
    assert!(snapshots.contains(&Snapshot::NoSystem { player: without_either, system: 54321 }));

    let mut writers = server.on_flush();
    writers.sort();
    assert_eq!(vec![1, 2, 3, 4], writers);
}

#[test]
fn a_tick_advances_the_world_and_then_names_the_snapshots() {
    let mut store = Store { entries: BTreeMap::new() };
    let mut server = start(&store, "space_build_tests");
    let Welcome::Active { uuid, .. } = first_message(&mut server, &mut store, 4, login("bob"))
    else {
        panic!("the login was not admitted");
    };
    let system = server.galaxy.players.get(&uuid).unwrap().current_system_uuid;
    let still = Body::new(BodyType::Planet, Vector3::new(1, 2, 3));
    server.galaxy.systems.get_mut(&system).unwrap().bodies.push(still);

    let moved = Body::new(BodyType::Planet, Vector3::new(4, 5, 6));
    let (updated, snapshots) = server.on_tick(&|_: &Body| Ok(moved));
    assert_eq!(Ok(()), updated);
    assert_eq!(vec![Snapshot::Feed { player: uuid, writer: 4, system }], snapshots);
    assert_eq!(vec![moved], server.galaxy.systems.get(&system).unwrap().bodies);

    let (updated, snapshots) = server.on_tick(&|_: &Body| Err(Error::WriterFeedError));
    assert_eq!(Err(Error::WriterFeedError), updated);
    assert_eq!(vec![Snapshot::Feed { player: uuid, writer: 4, system }], snapshots);
    assert_eq!(vec![moved], server.galaxy.systems.get(&system).unwrap().bodies);
    assert_eq!(Some(&4), server.writers.get(&uuid));
}

#[test]
fn the_client_takes_text_and_nothing_else() {
    assert_eq!(
        ClientMessage::Login(Login { nickname: "bob".to_string() }),
        PlayerClient::login("bob".to_string())
    );
    assert_eq!(
        Ok("{}".to_string()),
        PlayerClient::wait_message(Received::Text("{}".to_string()))
    );
    assert_eq!(Err(Error::NothingToRead), PlayerClient::wait_message(Received::End));
    assert_eq!(
        Err(Error::NothingToRead),
        PlayerClient::wait_message(Received::Failed("reset".to_string()))
    );
    for other in [Received::Binary, Received::Ping, Received::Pong, Received::Close, Received::Frame]
    {
        assert_eq!(Err(Error::UnexpectedNonTextMessageError), PlayerClient::wait_message(other));
    }
}
