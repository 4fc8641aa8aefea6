use rschat::channel::{Channel, NUM_MAX_GUEST, NUM_MAX_USER};
use rschat::coordinator::{membership_snapshot, Action, Session};
use rschat::frame::decode_frame;
use rschat::json::Json;
use rschat::packet::{
    Connected, Exit, FetchReq, FetchRes, GotoReq, GotoRes, LoginReq, LoginRes, Message,
    PacketType, RegisterReq, RegisterRes,
};
use rschat::registry::Channels;
use rschat::session::{respond, to_wire, Subscriber};
use rschat::user::{Login, User};

fn login_as(id: &str) -> LoginReq {
    LoginReq {
        login_info: Login {
            guest: false,
            id: Some(id.to_string()),
            password_hash: Some("hash".to_string()),
        },
    }
}

fn guest_login() -> PacketType {
    PacketType::LoginReq(LoginReq { login_info: Login::guest() })
}

fn message(id: &str, msg: &str) -> PacketType {
    PacketType::Message(Message { id: id.to_string(), msg: msg.to_string(), is_system: false })
}

fn consistent(channel: &Channel) {
    let list = channel.user_list();
    let guests = list.iter().filter(|id| id.starts_with("guest_")).count();
    assert_eq!(channel.num_guest(), guests);
    assert_eq!(channel.num_user(), list.len() - guests);
    assert!(channel.num_guest() <= NUM_MAX_GUEST);
    assert!(channel.num_user() <= NUM_MAX_USER);
    let mut sorted = list.clone();
    sorted.sort();
    sorted.dedup();
    assert_eq!(sorted.len(), list.len());
}

/// The id that a successful login answered with.
fn assigned_id(actions: &[Action]) -> String {
    match actions.last() {
        Some(Action::Reply(PacketType::LoginRes(LoginRes { result: Ok(id) }))) => id.clone(),
        other => panic!("no successful login: {:?}", other),
    }
}

#[test]
fn registry_starts_with_system_channels() {
    let channels = Channels::with_system_channels();
    for name in ["public", "main", "dev"] {
        let channel = channels.get_channel(name).unwrap();
        assert!(channel.is_system);
        assert!(channel.user_list().is_empty());
        assert_eq!(channel.num_user(), 0);
        assert_eq!(channel.num_guest(), 0);
    }
    assert!(channels.get_channel("nowhere").is_none());
    assert!(Channels::new().get_channel("public").is_none());
}

#[test]
fn channel_names_are_validated() {
    for name in ["abc", "_ab", "a_1", "Dev_Channel9", "___"] {
        assert!(Channels::is_valid(name), "{}", name);
    }
    for name in ["", "ab", "1ab", "ab c", "ab-c", "äbc", "abc!", "9__"] {
        assert!(!Channels::is_valid(name), "{}", name);
    }
}

#[test]
fn channels_are_created_once() {
    let mut channels = Channels::with_system_channels();
    assert!(channels.create_channel("lounge", false));
    assert!(!channels.get_channel("lounge").unwrap().is_system);
    assert!(!channels.create_channel("lounge", false));
    assert!(!channels.create_channel("public", true));
    assert!(!channels.create_channel("no", false));
    assert!(channels.get_channel("no").is_none());
}

#[test]
fn membership_counts_follow_the_members() {
    let mut channel = Channel::new(false);
    assert!(channel.add_connection("alice"));
    assert!(channel.add_connection("guest_42"));
    assert!(!channel.add_connection("alice"));
    assert!(channel.has_user("alice"));
    assert!(!channel.has_user("bob"));
    assert_eq!(channel.user_list(), vec!["alice".to_string(), "guest_42".to_string()]);
    assert_eq!((channel.num_user(), channel.num_guest()), (1, 1));
    consistent(&channel);
    channel.leave_user("alice");
    assert_eq!((channel.num_user(), channel.num_guest()), (0, 1));
    channel.leave_user("alice");
    channel.leave_user("nobody");
    assert_eq!((channel.num_user(), channel.num_guest()), (0, 1));
    channel.leave_user("guest_42");
    assert_eq!((channel.num_user(), channel.num_guest()), (0, 0));
    assert!(channel.user_list().is_empty());
    consistent(&channel);
}

#[test]
fn guests_get_fresh_ids_until_the_channel_is_full() {
    let mut channel = Channel::new(true);
    let mut seen = Vec::new();
    for _ in 0..NUM_MAX_GUEST {
        let id = channel.connect_guest().unwrap();
        let number: u16 = id.strip_prefix("guest_").unwrap().parse().unwrap();
        assert_eq!(id, format!("guest_{}", number));
        assert!(!seen.contains(&id));
        seen.push(id);
        consistent(&channel);
    }
    assert_eq!(channel.num_guest(), 64);
    assert_eq!(channel.connect_guest(), Err("too many guests".to_string()));
    assert_eq!(channel.connect_guest_from(7), Err("too many guests".to_string()));
    assert_eq!(channel.num_guest(), 64);
    assert_eq!(channel.user_list(), seen);
}

#[test]
fn guest_numbers_are_tried_in_turn_from_the_seed() {
    let mut channel = Channel::new(true);
    assert_eq!(channel.connect_guest_from(41), Ok("guest_41".to_string()));
    assert_eq!(channel.connect_guest_from(41), Ok("guest_42".to_string()));
    assert_eq!(channel.connect_guest_from(42), Ok("guest_43".to_string()));
    assert_eq!(channel.connect_guest_from(65535), Ok("guest_65535".to_string()));
    assert_eq!(channel.connect_guest_from(65535), Ok("guest_0".to_string()));
    assert_eq!(channel.connect_guest_from(0), Ok("guest_1".to_string()));
    assert_eq!(channel.connect_guest_from(10), Ok("guest_10".to_string()));
    consistent(&channel);
}

#[test]
fn user_login_replaces_the_present_id() {
    let mut channel = Channel::new(true);
    let guest = channel.connect_guest_from(5).unwrap();
    let r = channel.connect_user(&login_as("alice"), &guest, Ok("alice".to_string()));
    assert_eq!(r, Ok("alice".to_string()));
    assert_eq!(channel.user_list(), vec!["alice".to_string()]);
    assert_eq!((channel.num_user(), channel.num_guest()), (1, 0));
    let r = channel.connect_user(&login_as("bob"), "", Err("Wrong ID or Password".to_string()));
    assert_eq!(r, Err("Wrong ID or Password".to_string()));
    assert_eq!(channel.user_list(), vec!["alice".to_string()]);
    let broken = LoginReq {
        login_info: Login { guest: false, id: Some("bob".to_string()), password_hash: None },
    };
    assert_eq!(channel.check_user_login(&broken), Err("broken login packet".to_string()));
    assert_eq!(
        channel.connect_user(&broken, "", Ok("bob".to_string())),
        Err("broken login packet".to_string())
    );
    assert_eq!(channel.check_user_login(&login_as("bob")), Ok(()));
    consistent(&channel);
}


/// One connected client of the harness below.
struct Client {
    session: Session,
    identifier: String,
    subscriber: Subscriber,
    received: Vec<PacketType>,
    closed: bool,
}

/// A server in one thread: the registry, the clients, and a credential
/// store, with every action carried out at once.
struct Server {
    channels: Channels,
    clients: Vec<Client>,
    store: Vec<(String, String)>,
}

impl Server {
    fn new() -> Server {
        Server {
            channels: Channels::with_system_channels(),
            clients: Vec::new(),
            store: vec![("root".to_string(), "RBZkxHb64eFY3oh/JzXf5bD3yKOgBpS48Idp/okuT64=".to_string())],
        }
    }

    fn connect(&mut self) -> usize {
        self.clients.push(Client {
            session: Session::new(),
            identifier: String::new(),
            subscriber: Subscriber::new(),
            received: Vec::new(),
            closed: false,
        });
        self.clients.len() - 1
    }

    fn deliver(&mut self, to: usize, bytes: Option<Vec<u8>>) {
        if let Some(bytes) = bytes {
            self.clients[to].received.push(decode_frame(&bytes).unwrap());
        }
    }

    fn run(&mut self, from: usize, actions: Vec<Action>) {
        for action in actions {
            match action {
                Action::Reply(packet) => {
                    let bytes = respond(&mut self.clients[from].identifier, &packet);
                    self.deliver(from, bytes);
                }
                Action::Publish { channel, packet } => {
                    for i in 0..self.clients.len() {
                        if self.clients[i].closed
                            || self.clients[i].session.current_channel() != channel
                        {
                            continue;
                        }
                        let id = self.clients[i].identifier.clone();
                        let bytes = self.clients[i].subscriber.on_broadcast(&id, &packet);
                        self.deliver(i, bytes);
                    }
                }
                Action::Subscribe { channel } => {
                    assert_eq!(self.clients[from].session.current_channel(), channel);
                    self.clients[from].subscriber = Subscriber::new();
                }
                Action::StoreInsert(user) => {
                    let result = if self.store.iter().any(|(id, _)| *id == user.id) {
                        Err(format!("Failed to insert a new user: duplicate '{}'", user.id))
                    } else {
                        self.store.push((user.id, user.password_hash));
                        Ok(())
                    };
                    let next = Session::on_inserted(result);
                    self.run(from, next);
                }
                Action::StoreVerify(req) => {
                    let id = req.login_info.id.clone().unwrap();
                    let hash = req.login_info.password_hash.clone().unwrap();
                    let verified = if self.store.contains(&(id.clone(), hash)) {
                        Ok(id)
                    } else {
                        Err("Wrong ID or Password".to_string())
                    };
                    let identifier = self.clients[from].identifier.clone();
                    let next = self.clients[from].session.on_verified(
                        &mut self.channels,
                        &identifier,
                        &req,
                        verified,
                    );
                    self.run(from, next);
                }
                Action::Close => self.clients[from].closed = true,
            }
        }
    }

    fn send(&mut self, from: usize, packet: PacketType) {
        let identifier = self.clients[from].identifier.clone();
        let actions =
            self.clients[from].session.handle_packet(&mut self.channels, &identifier, packet);
        self.run(from, actions);
        for name in ["public", "main", "dev"] {
            consistent(self.channels.get_channel(name).unwrap());
        }
    }

    fn take(&mut self, client: usize) -> Vec<PacketType> {
        std::mem::take(&mut self.clients[client].received)
    }

    fn members(&self, channel: &str) -> Vec<String> {
        self.channels.get_channel(channel).unwrap().user_list()
    }
}

fn joined(id: &str) -> PacketType {
    PacketType::Message(Message::connection(id))
}

fn left(id: &str) -> PacketType {
    PacketType::Message(Message::disconnection(id))
}

#[test]
fn guest_join_and_echo() {
    let mut server = Server::new();
    let b = server.connect();
    server.send(b, guest_login());
    let b_id = server.clients[b].identifier.clone();
    assert!(b_id.starts_with("guest_"));
    assert_eq!(
        server.take(b),
        vec![PacketType::LoginRes(LoginRes { result: Ok(b_id.clone()) })]
    );

    let a = server.connect();
    server.send(a, guest_login());
    let a_id = server.clients[a].identifier.clone();
    assert!(a_id.starts_with("guest_"));
    assert_ne!(a_id, b_id);
    assert_eq!(
        server.take(a),
        vec![PacketType::LoginRes(LoginRes { result: Ok(a_id.clone()) })]
    );
    assert_eq!(server.take(b), vec![joined(&a_id)]);

    server.send(a, message(&a_id, "hi"));
    assert_eq!(server.take(b), vec![message(&a_id, "hi")]);
    assert_eq!(server.take(a), vec![]);
    assert_eq!(server.members("public"), vec![b_id, a_id]);
}

#[test]
fn register_and_login() {
    let mut server = Server::new();
    let guest = server.connect();
    server.send(guest, guest_login());
    server.take(guest);

    let c = server.connect();
    let hash = rschat::hash::sha256_password("pw1234");
    server.send(
        c,
        PacketType::RegisterReq(RegisterReq {
            user: User {
                id: "alice".to_string(),
                password_hash: hash.clone(),
                bio: None,
                location: None,
            },
        }),
    );
    assert_eq!(server.take(c), vec![PacketType::RegisterRes(RegisterRes { result: Ok(()) })]);

    let d = server.connect();
    server.send(
        d,
        PacketType::LoginReq(LoginReq {
            login_info: Login {
                guest: false,
                id: Some("alice".to_string()),
                password_hash: Some(hash),
            },
        }),
    );
    assert_eq!(
        server.take(d),
        vec![PacketType::LoginRes(LoginRes { result: Ok("alice".to_string()) })]
    );
    assert_eq!(server.clients[d].identifier, "alice");
    assert_eq!(
        server.take(guest),
        vec![PacketType::Message(Message {
            id: "alice".to_string(),
            msg: "'alice' has joined".to_string(),
            is_system: true,
        })]
    );

    server.send(d, PacketType::LoginReq(login_as("alice")));
    // a wrong password hash: refused, membership unchanged
    assert_eq!(
        server.take(d),
        vec![PacketType::LoginRes(LoginRes { result: Err("Wrong ID or Password".to_string()) })]
    );
    assert_eq!(server.members("public").len(), 2);
}

#[test]
fn reserved_id_rejection() {
    let mut server = Server::new();
    let c = server.connect();
    for id in ["root_2", "root", "guest_1"] {
        server.send(
            c,
            PacketType::RegisterReq(RegisterReq {
                user: User {
                    id: id.to_string(),
                    password_hash: "long enough".to_string(),
                    bio: None,
                    location: None,
                },
            }),
        );
        assert_eq!(
            server.take(c),
            vec![PacketType::RegisterRes(RegisterRes {
                result: Err("Reserved id format".to_string())
            })]
        );
    }
    assert_eq!(server.store.len(), 1);
    server.send(
        c,
        PacketType::RegisterReq(RegisterReq {
            user: User {
                id: "carol".to_string(),
                password_hash: "abc".to_string(),
                bio: None,
                location: None,
            },
        }),
    );
    assert_eq!(
        server.take(c),
        vec![PacketType::RegisterRes(RegisterRes {
            result: Err("too short password! (password >= 4)".to_string())
        })]
    );
}

#[test]
fn channel_migration() {
    let mut server = Server::new();
    let (a, b, c) = (server.connect(), server.connect(), server.connect());
    for client in [a, b, c] {
        server.send(client, guest_login());
    }
    server.send(c, PacketType::GotoReq(GotoReq { channel_name: "dev".to_string() }));
    let (a_id, b_id, c_id) = (
        server.clients[a].identifier.clone(),
        server.clients[b].identifier.clone(),
        server.clients[c].identifier.clone(),
    );
    for client in [a, b, c] {
        server.take(client);
    }

    server.send(a, PacketType::GotoReq(GotoReq { channel_name: "dev".to_string() }));
    assert_eq!(
        server.take(a),
        vec![PacketType::GotoRes(GotoRes { result: Ok("dev".to_string()) })]
    );
    assert_eq!(server.take(b), vec![left(&a_id)]);
    assert_eq!(server.take(c), vec![]);
    assert_eq!(server.members("public"), vec![b_id.clone()]);
    assert_eq!(server.members("dev"), vec![c_id.clone(), a_id.clone()]);
    assert_eq!(server.clients[a].session.current_channel(), "dev");

    server.send(a, message(&a_id, "in dev"));
    assert_eq!(server.take(c), vec![message(&a_id, "in dev")]);
    assert_eq!(server.take(b), vec![]);
    assert_eq!(server.take(a), vec![]);

    server.send(b, message(&b_id, "still here"));
    assert_eq!(server.take(a), vec![]);
    server.send(c, message(&c_id, "welcome"));
    assert_eq!(server.take(a), vec![message(&c_id, "welcome")]);
}

#[test]
fn goto_reports_what_is_done_in_order() {
    let mut channels = Channels::with_system_channels();
    let mut session = Session::new();
    assert!(channels.add_connection("public", "alice") == Some(true));
    let actions = session.handle_packet(
        &mut channels,
        "alice",
        PacketType::GotoReq(GotoReq { channel_name: "main".to_string() }),
    );
    assert_eq!(
        actions,
        vec![
            Action::Subscribe { channel: "main".to_string() },
            Action::Publish {
                channel: "main".to_string(),
                packet: PacketType::Connected(Connected {}),
            },
            Action::Publish { channel: "public".to_string(), packet: left("alice") },
            Action::Reply(PacketType::GotoRes(GotoRes { result: Ok("main".to_string()) })),
        ]
    );
    assert_eq!(session.current_channel(), "main");
    assert!(channels.get_channel("public").unwrap().user_list().is_empty());
    assert_eq!(channels.get_channel("main").unwrap().user_list(), vec!["alice".to_string()]);
}

#[test]
fn goto_to_an_unknown_or_the_present_channel_changes_nothing() {
    let mut channels = Channels::with_system_channels();
    let mut session = Session::new();
    channels.add_connection("public", "alice");
    let actions = session.handle_goto(
        &mut channels,
        "alice",
        GotoReq { channel_name: "nowhere".to_string() },
    );
    assert_eq!(
        actions,
        vec![Action::Reply(PacketType::GotoRes(GotoRes {
            result: Err("Invalid or not permitted".to_string())
        }))]
    );
    let actions = session.handle_goto(
        &mut channels,
        "alice",
        GotoReq { channel_name: "public".to_string() },
    );
    assert_eq!(
        actions,
        vec![Action::Reply(PacketType::GotoRes(GotoRes { result: Ok("public".to_string()) }))]
    );
    assert_eq!(session.current_channel(), "public");
    assert_eq!(channels.get_channel("public").unwrap().user_list(), vec!["alice".to_string()]);
}

#[test]
fn capacity_rejection() {
    let mut channels = Channels::with_system_channels();
    let mut session = Session::new();
    for i in 0..NUM_MAX_USER {
        let id = format!("user{}", i);
        let actions = session.on_verified(&mut channels, "", &login_as(&id), Ok(id.clone()));
        assert_eq!(assigned_id(&actions), id);
    }
    let before = channels.get_channel("public").unwrap().user_list();
    assert_eq!(before.len(), 128);
    let refusal = vec![Action::Reply(PacketType::LoginRes(LoginRes {
        result: Err("too many users".to_string()),
    }))];
    let actions = session.handle_packet(&mut channels, "", PacketType::LoginReq(login_as("late")));
    assert_eq!(actions, refusal);
    let actions = session.on_verified(&mut channels, "", &login_as("late"), Ok("late".to_string()));
    assert_eq!(actions, refusal);
    assert_eq!(channels.get_channel("public").unwrap().user_list(), before);
    consistent(channels.get_channel("public").unwrap());
    assert_eq!(channels.add_connection("public", "late"), Some(false));
    assert_eq!(channels.add_connection("public", "guest_1"), Some(true));
    assert_eq!(channels.add_connection("nowhere", "late"), None);
}

#[test]
fn fetch_list() {
    let mut channels = Channels::with_system_channels();
    let mut session = Session::new();
    channels.add_connection("public", "alice");
    channels.add_connection("public", "guest_42");
    let expected = Json::Object(vec![
        (
            "user_list".to_string(),
            Json::Array(vec![
                Json::String("alice".to_string()),
                Json::String("guest_42".to_string()),
            ]),
        ),
        ("num_user".to_string(), Json::from_u64(1)),
        ("num_guest".to_string(), Json::from_u64(1)),
    ]);
    assert_eq!(membership_snapshot(channels.get_channel("public").unwrap()), expected);
    let actions = session.handle_packet(
        &mut channels,
        "alice",
        PacketType::FetchReq(FetchReq { item: "list".to_string() }),
    );
    assert_eq!(
        actions,
        vec![Action::Reply(PacketType::FetchRes(FetchRes {
            item: "list".to_string(),
            result: Ok(expected.clone()),
        }))]
    );
    assert_eq!(
        expected.to_text(),
        "{\"num_guest\":1,\"num_user\":1,\"user_list\":[\"alice\",\"guest_42\"]}"
    );
    let actions = session.handle_fetch(&channels, FetchReq { item: "time".to_string() });
    assert_eq!(
        actions,
        vec![Action::Reply(PacketType::FetchRes(FetchRes {
            item: "time".to_string(),
            result: Err("unknown fetch item".to_string()),
        }))]
    );
}

#[test]
fn exit_announces_the_departure_and_closes() {
    let mut server = Server::new();
    let (a, b) = (server.connect(), server.connect());
    server.send(a, guest_login());
    server.send(b, guest_login());
    let a_id = server.clients[a].identifier.clone();
    let b_id = server.clients[b].identifier.clone();
    server.take(a);
    server.take(b);
    server.send(a, PacketType::Exit(Exit {}));
    assert!(server.clients[a].closed);
    assert_eq!(server.take(b), vec![left(&a_id)]);
    assert_eq!(server.members("public"), vec![b_id.clone()]);

    let mut channels = Channels::with_system_channels();
    let session = Session::new();
    channels.add_connection("public", "alice");
    assert_eq!(session.on_disconnect(&mut channels, "alice"), vec![Action::Close]);
    assert!(channels.get_channel("public").unwrap().user_list().is_empty());
}

#[test]
fn packets_that_only_a_server_sends_are_passed_over() {
    let mut channels = Channels::with_system_channels();
    let mut session = Session::new();
    for packet in [
        PacketType::Connected(Connected {}),
        PacketType::LoginRes(LoginRes { result: Ok("root".to_string()) }),
        PacketType::RegisterRes(RegisterRes { result: Ok(()) }),
        PacketType::GotoRes(GotoRes { result: Ok("dev".to_string()) }),
    ] {
        assert_eq!(session.handle_packet(&mut channels, "", packet), vec![]);
    }
    assert_eq!(
        session.handle_message(Message {
            id: "x".to_string(),
            msg: "y".to_string(),
            is_system: false
        }),
        vec![Action::Publish { channel: "public".to_string(), packet: message("x", "y") }]
    );
}

#[test]
fn subscriber_is_closed_until_connected_and_skips_own_messages() {
    let mut subscriber = Subscriber::new();
    assert!(!subscriber.connected);
    assert_eq!(subscriber.on_broadcast("me", &message("you", "early")), None);
    assert!(!subscriber.connected);
    assert_eq!(subscriber.on_broadcast("me", &PacketType::Exit(Exit {})), None);
    assert_eq!(subscriber.on_broadcast("me", &PacketType::Connected(Connected {})), None);
    assert!(subscriber.connected);
    let bytes = subscriber.on_broadcast("me", &message("you", "now")).unwrap();
    assert_eq!(decode_frame(&bytes), Ok(message("you", "now")));
    assert_eq!(Some(bytes), to_wire(&message("you", "now")));
    assert_eq!(subscriber.on_broadcast("me", &message("me", "echo")), None);
    assert_eq!(
        subscriber.on_broadcast("me", &PacketType::LoginRes(LoginRes { result: Ok("x".into()) })),
        None
    );
    assert!(subscriber.connected);
}

#[test]
fn responder_sets_the_id_on_a_successful_login_only() {
    let mut identifier = String::new();
    let ok = PacketType::LoginRes(LoginRes { result: Ok("alice".to_string()) });
    let bytes = respond(&mut identifier, &ok).unwrap();
    assert_eq!(identifier, "alice");
    assert_eq!(decode_frame(&bytes), Ok(ok));
    let err = PacketType::LoginRes(LoginRes { result: Err("too many users".to_string()) });
    let bytes = respond(&mut identifier, &err).unwrap();
    assert_eq!(identifier, "alice");
    assert_eq!(decode_frame(&bytes), Ok(err));
    assert_eq!(respond(&mut identifier, &message("a", "b")), None);
    assert_eq!(respond(&mut identifier, &PacketType::Connected(Connected {})), None);
    let goto = PacketType::GotoRes(GotoRes { result: Ok("dev".to_string()) });
    assert_eq!(respond(&mut identifier, &goto), to_wire(&goto));
    assert_eq!(identifier, "alice");
}

#[test]
fn registration_goes_to_the_store_only_when_valid() {
    let user = User {
        id: "dave".to_string(),
        password_hash: "hash".to_string(),
        bio: Some("bio".to_string()),
        location: None,
    };
    assert_eq!(
        Session::handle_register(RegisterReq { user: user.clone() }),
        vec![Action::StoreInsert(user)]
    );
    assert_eq!(
        Session::on_inserted(Err("Failed to insert a new user: x".to_string())),
        vec![Action::Reply(PacketType::RegisterRes(RegisterRes {
            result: Err("Failed to insert a new user: x".to_string())
        }))]
    );
}

#[test]
fn login_with_credentials_is_checked_before_the_store_is_asked() {
    let mut channels = Channels::with_system_channels();
    let session = Session::new();
    assert_eq!(
        session.handle_login(&mut channels, login_as("alice")),
        vec![Action::StoreVerify(login_as("alice"))]
    );
    let broken = LoginReq { login_info: Login { guest: false, id: None, password_hash: None } };
    assert_eq!(
        session.handle_login(&mut channels, broken),
        vec![Action::Reply(PacketType::LoginRes(LoginRes {
            result: Err("broken login packet".to_string())
        }))]
    );
    let actions = session.on_verified(&mut channels, "", &login_as("alice"), Ok("alice".into()));
    assert_eq!(
        actions,
        vec![
            Action::Publish { channel: "public".to_string(), packet: joined("alice") },
            Action::Publish {
                channel: "public".to_string(),
                packet: PacketType::Connected(Connected {}),
            },
            Action::Reply(PacketType::LoginRes(LoginRes { result: Ok("alice".to_string()) })),
        ]
    );
}

#[test]
fn guest_capacity_is_enforced_by_the_coordinator() {
    let mut server = Server::new();
    for _ in 0..NUM_MAX_GUEST {
        let c = server.connect();
        server.send(c, guest_login());
        assert!(server.clients[c].identifier.starts_with("guest_"));
    }
    let late = server.connect();
    server.send(late, guest_login());
    assert_eq!(
        server.take(late),
        vec![PacketType::LoginRes(LoginRes { result: Err("too many guests".to_string()) })]
    );
    assert_eq!(server.clients[late].identifier, "");
    assert_eq!(server.members("public").len(), 64);
}
