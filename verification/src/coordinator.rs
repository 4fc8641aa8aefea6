//! The coordinator of a connection: what the server does on each packet
//! that a client sends.
//!
//! The coordinator changes the registry of channels itself and says what
//! else is to be done as a list of [`Action`]s, in the order in which they
//! are to be carried out. Asking the credential store is such an action; the
//! store's answer comes back through [`Session::on_inserted`] and
//! [`Session::on_verified`].

use vstd::prelude::*;
use vstd::string::StringExecFns;
use crate::channel::guest_count;
use crate::channel::guest_id;
use crate::channel::joined;
use crate::channel::left;
use crate::channel::user_count;
use crate::channel::Channel;
use crate::channel::NUM_MAX_GUEST;
use crate::channel::NUM_MAX_USER;
use crate::json::number_of_u64;
use crate::json::Json;
use crate::json::JsonView;
use crate::packet::joined_text;
use crate::packet::left_text;
use crate::packet::Connected;
use crate::packet::FetchReq;
use crate::packet::FetchRes;
use crate::packet::GotoReq;
use crate::packet::GotoRes;
use crate::packet::LoginReq;
use crate::packet::LoginRes;
use crate::packet::Message;
use crate::packet::PacketType;
use crate::packet::PacketView;
use crate::packet::RegisterReq;
use crate::packet::RegisterRes;
use crate::registry::Channels;
use crate::text::str_eq;
use crate::user::LoginView;
use crate::user::RegistrationError;
use crate::user::User;
use crate::user::UserView;

verus! {

/// Something the coordinator wants done.
#[derive(Debug, PartialEq)]
pub enum Action {
    /// Send the packet to this connection's client.
    Reply(PacketType),
    /// Broadcast the packet on the channel.
    Publish { channel: String, packet: PacketType },
    /// Stop passing on the broadcasts of the channel that the connection was
    /// on, and start on this channel with a new, closed subscriber.
    Subscribe { channel: String },
    /// Ask the credential store to add the user.
    StoreInsert(User),
    /// Ask the credential store whether the login is good.
    StoreVerify(LoginReq),
    /// Close the connection.
    Close,
}

/// The mathematical value of an [`Action`].
pub enum ActionView {
    Reply(PacketView),
    Publish { channel: Seq<char>, packet: PacketView },
    Subscribe { channel: Seq<char> },
    StoreInsert(UserView),
    StoreVerify(LoginView),
    Close,
}

impl View for Action {
    type V = ActionView;

    open spec fn view(&self) -> ActionView {
        match self {
            Action::Reply(p) => ActionView::Reply(p@),
            Action::Publish { channel, packet } => ActionView::Publish {
                channel: channel@,
                packet: packet@,
            },
            Action::Subscribe { channel } => ActionView::Subscribe { channel: channel@ },
            Action::StoreInsert(u) => ActionView::StoreInsert(u@),
            Action::StoreVerify(req) => ActionView::StoreVerify(req.login_info@),
            Action::Close => ActionView::Close,
        }
    }
}

/// The values of a list of actions.
pub open spec fn actions_view(actions: Seq<Action>) -> Seq<ActionView> {
    Seq::new(actions.len(), |i: int| actions[i]@)
}

/// The notice that `id` has joined, as a packet.
pub open spec fn joined_notice(id: Seq<char>) -> PacketView {
    PacketView::Message { id, msg: joined_text(id), is_system: true }
}

/// The notice that `id` has left, as a packet.
pub open spec fn left_notice(id: Seq<char>) -> PacketView {
    PacketView::Message { id, msg: left_text(id), is_system: true }
}

/// The reason that a client is given for a refused registration.
pub open spec fn reason_text(e: RegistrationError) -> Seq<char> {
    match e {
        RegistrationError::ReservedId => "Reserved id format"@,
        RegistrationError::ShortPassword => "too short password! (password >= 4)"@,
    }
}

/// What is done on a request to register: a refusal where the record breaks
/// the rules for new accounts, else the record goes to the credential store.
pub open spec fn register_actions(user: UserView) -> Seq<ActionView> {
    match user.registration_error() {
        Some(e) => seq![
            ActionView::Reply(PacketView::RegisterRes { result: Err(reason_text(e)) }),
        ],
        None => seq![ActionView::StoreInsert(user)],
    }
}

/// What is done after a login on `channel`: on success the arrival is
/// announced on the channel, then the channel's subscribers are opened, then
/// the client is answered; on failure the client is answered.
pub open spec fn login_actions(channel: Seq<char>, result: Result<Seq<char>, Seq<char>>) -> Seq<
    ActionView,
> {
    match result {
        Ok(id) => seq![
            ActionView::Publish { channel, packet: joined_notice(id) },
            ActionView::Publish { channel, packet: PacketView::Connected },
            ActionView::Reply(PacketView::LoginRes { result }),
        ],
        Err(_) => seq![ActionView::Reply(PacketView::LoginRes { result })],
    }
}

/// What is done on a successful move from channel `from` to channel `to`:
/// the subscriber moves, the arrival is marked on the new channel, the
/// departure is announced on the old one, and the client is answered.
pub open spec fn goto_actions(from: Seq<char>, to: Seq<char>, identifier: Seq<char>) -> Seq<
    ActionView,
> {
    seq![
        ActionView::Subscribe { channel: to },
        ActionView::Publish { channel: to, packet: PacketView::Connected },
        ActionView::Publish { channel: from, packet: left_notice(identifier) },
        ActionView::Reply(PacketView::GotoRes { result: Ok(to) }),
    ]
}

/// A move between two different channels is seen as exactly one departure
/// on the old channel and exactly one arrival on the new one, and the
/// subscriber has moved before either is published.
pub proof fn lemma_goto_once(from: Seq<char>, to: Seq<char>, identifier: Seq<char>)
    requires
        from != to,
    ensures
        ({
            let a = goto_actions(from, to, identifier);
            &&& a[0] == ActionView::Subscribe { channel: to }
            &&& forall|i: int|
                0 <= i < a.len() && (#[trigger] a[i]) is Publish && a[i]->Publish_channel == from
                    ==> i == 2 && a[i]->Publish_packet == left_notice(identifier)
            &&& forall|i: int|
                0 <= i < a.len() && (#[trigger] a[i]) is Publish && a[i]->Publish_channel == to
                    ==> i == 1 && a[i]->Publish_packet == PacketView::Connected
        }),
{
}

/// The list of members as it is reported to a client.
pub open spec fn snapshot_json(ids: Seq<Seq<char>>) -> JsonView {
    JsonView::Object(
        Map::empty().insert(
            "user_list"@,
            JsonView::Array(Seq::new(ids.len(), |i: int| JsonView::String(ids[i]))),
        ).insert("num_user"@, JsonView::Number(number_of_u64(user_count(ids) as u64))).insert(
            "num_guest"@,
            JsonView::Number(number_of_u64(guest_count(ids) as u64)),
        ),
    )
}

/// The list of a channel's members as it is reported to a client.
pub fn membership_snapshot(channel: &Channel) -> (j: Json)
    requires
        channel.wf(),
    ensures
        j@ == snapshot_json(channel.ids()),
{
    let names = channel.user_list();
    let mut items: Vec<Json> = Vec::new();
    let mut i: usize = 0;
    while i < names.len()
        invariant
            i <= names.len(),
            items@.len() == i,
            forall|k: int| 0 <= k < i ==> (#[trigger] items@[k])@ == JsonView::String(names@[k]@),
        decreases names.len() - i,
    {
        items.push(Json::String(names[i].clone()));
        i += 1;
    }
    let mut entries: Vec<(String, Json)> = Vec::new();
    let ghost e0 = entries@;
    entries.push((String::from_str("user_list"), Json::Array(items)));
    let ghost e1 = entries@;
    let num_user = channel.num_user() as u64;
    let num_guest = channel.num_guest() as u64;
    entries.push((String::from_str("num_user"), Json::from_u64(num_user)));
    let ghost e2 = entries@;
    entries.push((String::from_str("num_guest"), Json::from_u64(num_guest)));
    proof {
        crate::json::lemma_items_view(items@);
        assert(crate::channel::ids_of(names@) == channel.ids());
        assert(crate::json::items_view(items@) =~= Seq::new(
            channel.ids().len(),
            |i: int| JsonView::String(channel.ids()[i]),
        )) by {
            assert forall|k: int| 0 <= k < items@.len() implies crate::json::items_view(items@)[k]
                == JsonView::String(channel.ids()[k]) by {
                assert(crate::channel::ids_of(names@)[k] == names@[k]@);
            }
        }
        let e3 = entries@;
        assert(e1.drop_last() =~= e0);
        assert(e2.drop_last() =~= e1);
        assert(e3.drop_last() =~= e2);
        assert(crate::json::entries_view(e0) =~= Map::<Seq<char>, JsonView>::empty());
        assert(crate::json::entries_view(e1) == crate::json::entries_view(e0).insert(
            e1.last().0@,
            e1.last().1@,
        ));
        assert(crate::json::entries_view(e2) == crate::json::entries_view(e1).insert(
            e2.last().0@,
            e2.last().1@,
        ));
        assert(crate::json::entries_view(e3) == crate::json::entries_view(e2).insert(
            e3.last().0@,
            e3.last().1@,
        ));
        assert(e1.last().1@ == JsonView::Array(crate::json::items_view(items@)));
        assert(num_user == user_count(channel.ids()) as u64);
        assert(num_guest == guest_count(channel.ids()) as u64);
    }
    Json::Object(entries)
}

/// What is done on a request for information: the item `list` is answered
/// with the members of the channel, any other item with a reason.
pub open spec fn fetch_actions(ids: Seq<Seq<char>>, item: Seq<char>) -> Seq<ActionView> {
    seq![
        ActionView::Reply(
            PacketView::FetchRes {
                item,
                result: if item == "list"@ {
                    Ok(snapshot_json(ids))
                } else {
                    Err("unknown fetch item"@)
                },
            },
        ),
    ]
}

/// What a request to log in on `channel` does to the registry and what it
/// has done: see [`Session::handle_login`].
pub open spec fn login_post(
    channel: Seq<char>,
    old_channels: Channels,
    new_channels: Channels,
    login: LoginView,
    out: Seq<ActionView>,
) -> bool {
    let before = old_channels.channel(channel);
    let after = new_channels.channel(channel);
    &&& new_channels.same_but(&old_channels, channel)
    &&& after.is_system == before.is_system
    &&& if login.guest {
        if before.state.guests() >= NUM_MAX_GUEST {
            &&& after.ids() == before.ids()
            &&& out == login_actions(channel, Err("too many guests"@))
        } else {
            exists|n: nat|
                {
                    &&& n < 0x1_0000
                    &&& !before.ids().contains(#[trigger] guest_id(n))
                    &&& after.ids() == before.ids().push(guest_id(n))
                    &&& out == login_actions(channel, Ok(guest_id(n)))
                }
        }
    } else {
        &&& after.ids() == before.ids()
        &&& if before.state.users() >= NUM_MAX_USER {
            out == login_actions(channel, Err("too many users"@))
        } else if login.id is None || login.password_hash is None {
            out == login_actions(channel, Err("broken login packet"@))
        } else {
            out == seq![ActionView::StoreVerify(login)]
        }
    }
}

/// What the credential store's answer to a login on `channel` does to the
/// registry and what it has done: see [`Session::on_verified`].
pub open spec fn verified_post(
    channel: Seq<char>,
    old_channels: Channels,
    new_channels: Channels,
    identifier: Seq<char>,
    login: LoginView,
    verified: Result<Seq<char>, Seq<char>>,
    out: Seq<ActionView>,
) -> bool {
    let before = old_channels.channel(channel);
    let after = new_channels.channel(channel);
    &&& new_channels.same_but(&old_channels, channel)
    &&& after.is_system == before.is_system
    &&& if before.state.users() >= NUM_MAX_USER {
        &&& after.ids() == before.ids()
        &&& out == login_actions(channel, Err("too many users"@))
    } else if login.id is None || login.password_hash is None {
        &&& after.ids() == before.ids()
        &&& out == login_actions(channel, Err("broken login packet"@))
    } else {
        match verified {
            Err(e) => {
                &&& after.ids() == before.ids()
                &&& out == login_actions(channel, Err(e))
            },
            Ok(_) => {
                let id = login.id->0;
                &&& after.ids() == joined(left(before.ids(), identifier), id)
                &&& out == login_actions(channel, Ok(id))
            },
        }
    }
}

/// What a farewell on `channel` does to the registry and what it has done:
/// see [`Session::handle_exit`].
pub open spec fn exit_post(
    channel: Seq<char>,
    old_channels: Channels,
    new_channels: Channels,
    identifier: Seq<char>,
    out: Seq<ActionView>,
) -> bool {
    &&& new_channels.same_but(&old_channels, channel)
    &&& new_channels.channel(channel).ids() == left(old_channels.channel(channel).ids(), identifier)
    &&& new_channels.channel(channel).is_system == old_channels.channel(channel).is_system
    &&& out == seq![
        ActionView::Publish { channel, packet: left_notice(identifier) },
        ActionView::Close,
    ]
}

/// What a request to move from channel `from` to channel `to` does to the
/// registry and what it has done: see [`Session::handle_goto`].
pub open spec fn goto_post(
    from: Seq<char>,
    to: Seq<char>,
    now: Seq<char>,
    old_channels: Channels,
    new_channels: Channels,
    identifier: Seq<char>,
    out: Seq<ActionView>,
) -> bool {
    if !old_channels.has(to) {
        &&& new_channels == old_channels
        &&& now == from
        &&& out == seq![
            ActionView::Reply(PacketView::GotoRes { result: Err("Invalid or not permitted"@) }),
        ]
    } else if to == from {
        &&& new_channels == old_channels
        &&& now == from
        &&& out == seq![ActionView::Reply(PacketView::GotoRes { result: Ok(to) })]
    } else {
        &&& now == to
        &&& new_channels.names() == old_channels.names()
        &&& new_channels.channel(from).ids() == left(old_channels.channel(from).ids(), identifier)
        &&& new_channels.channel(from).is_system == old_channels.channel(from).is_system
        &&& new_channels.channel(to).ids() == joined(old_channels.channel(to).ids(), identifier)
        &&& new_channels.channel(to).is_system == old_channels.channel(to).is_system
        &&& forall|other: Seq<char>|
            old_channels.has(other) && other != from && other != to ==> new_channels.channel(
                other,
            ) == old_channels.channel(other)
        &&& out == goto_actions(from, to, identifier)
    }
}

/// The coordinator's state: the channel that the connection is on.
#[derive(Debug)]
pub struct Session {
    current_channel: String,
}

impl Session {
    /// The name of the channel that the connection is on.
    pub closed spec fn channel(&self) -> Seq<char> {
        self.current_channel@
    }

    /// A session for a connection just accepted: on the entry channel
    /// `public`.
    pub fn new() -> (s: Session)
        ensures
            s.channel() == crate::registry::default_channel(),
    {
        Session { current_channel: String::from_str("public") }
    }

    /// The name of the channel that the connection is on.
    pub fn current_channel(&self) -> (name: &str)
        ensures
            name@ == self.channel(),
    {
        self.current_channel.as_str()
    }

    /// A request to register: see [`register_actions`].
    pub fn handle_register(req: RegisterReq) -> (out: Vec<Action>)
        ensures
            actions_view(out@) == register_actions(req.user@),
    {
        let mut out: Vec<Action> = Vec::new();
        match req.user.validate() {
            Err(e) => {
                out.push(
                    Action::Reply(PacketType::RegisterRes(RegisterRes { result: Err(e.reason()) })),
                );
            },
            Ok(_) => {
                out.push(Action::StoreInsert(req.user));
            },
        }
        assert(actions_view(out@) =~= register_actions(req.user@));
        out
    }

    /// The credential store's answer to a registration: it goes to the
    /// client as it is.
    pub fn on_inserted(result: Result<(), String>) -> (out: Vec<Action>)
        ensures
            actions_view(out@) == seq![
                ActionView::Reply(
                    PacketView::RegisterRes { result: crate::packet::unit_result_view(result) },
                ),
            ],
    {
        let mut out: Vec<Action> = Vec::new();
        out.push(Action::Reply(PacketType::RegisterRes(RegisterRes { result })));
        assert(actions_view(out@) =~= seq![
            ActionView::Reply(
                PacketView::RegisterRes { result: crate::packet::unit_result_view(result) },
            ),
        ]);
        out
    }

    /// The actions after a login on this session's channel.
    fn after_login(&self, result: Result<String, String>) -> (out: Vec<Action>)
        ensures
            actions_view(out@) == login_actions(
                self.channel(),
                crate::packet::text_result_view(result),
            ),
    {
        let mut out: Vec<Action> = Vec::new();
        match &result {
            Ok(id) => {
                out.push(
                    Action::Publish {
                        channel: self.current_channel.clone(),
                        packet: PacketType::Message(Message::connection(id.as_str())),
                    },
                );
                out.push(
                    Action::Publish {
                        channel: self.current_channel.clone(),
                        packet: PacketType::Connected(Connected {  }),
                    },
                );
            },
            Err(_) => {},
        }
        out.push(Action::Reply(PacketType::LoginRes(LoginRes { result })));
        assert(actions_view(out@) =~= login_actions(
            self.channel(),
            crate::packet::text_result_view(result),
        ));
        out
    }

    /// A request to log in. A guest is logged in at once, as
    /// [`Channel::connect_guest`] does, and the outcome is announced as
    /// [`login_actions`] says. A login with credentials is refused at once
    /// where [`Channel::check_user_login`] refuses it, and goes to the
    /// credential store otherwise; the registry is left as it is.
    pub fn handle_login(&self, channels: &mut Channels, req: LoginReq) -> (out: Vec<Action>)
        requires
            old(channels).wf(),
            old(channels).has(self.channel()),
        ensures
            final(channels).wf(),
            login_post(self.channel(), *old(channels), *final(channels), req.login_info@, actions_view(out@)),
    {
        if req.login_info.guest {
            let r = channels.connect_guest(self.current_channel.as_str());
            proof {
                if r is Ok {
                    let n = choose|n: nat| n < 0x1_0000 && r->Ok_0@ == guest_id(n);
                    assert(!old(channels).channel(self.channel()).ids().contains(guest_id(n)));
                }
            }
            self.after_login(r)
        } else {
            let check = match channels.get_channel(self.current_channel.as_str()) {
                Some(channel) => channel.check_user_login(&req),
                None => Err(String::from_str("Channel not found")),
            };
            match check {
                Err(e) => self.after_login(Err(e)),
                Ok(_) => {
                    let mut out: Vec<Action> = Vec::new();
                    out.push(Action::StoreVerify(req));
                    assert(actions_view(out@) =~= seq![ActionView::StoreVerify(req.login_info@)]);
                    out
                },
            }
        }
    }

    /// The credential store's answer to a login with credentials. The login
    /// is carried out as [`Channel::connect_user`] does, with `identifier`,
    /// the connection's present id, leaving the channel; the outcome is
    /// announced as [`login_actions`] says.
    pub fn on_verified(
        &self,
        channels: &mut Channels,
        identifier: &str,
        req: &LoginReq,
        verified: Result<String, String>,
    ) -> (out: Vec<Action>)
        requires
            old(channels).wf(),
            old(channels).has(self.channel()),
        ensures
            final(channels).wf(),
            verified_post(
                self.channel(),
                *old(channels),
                *final(channels),
                identifier@,
                req.login_info@,
                crate::packet::text_result_view(verified),
                actions_view(out@),
            ),
    {
        let r = channels.connect_user(self.current_channel.as_str(), req, identifier, verified);
        self.after_login(r)
    }

    /// A request for information. The item `list` is answered with the
    /// members of the connection's channel, any other item with the reason
    /// `unknown fetch item`.
    pub fn handle_fetch(&self, channels: &Channels, req: FetchReq) -> (out: Vec<Action>)
        requires
            channels.wf(),
            channels.has(self.channel()),
        ensures
            actions_view(out@) == fetch_actions(channels.channel(self.channel()).ids(), req.item@),
    {
        let result = if str_eq(req.item.as_str(), "list") {
            match channels.get_channel(self.current_channel.as_str()) {
                Some(channel) => {
                    proof {
                        let i = channels.names().index_of(self.channel());
                        assert(channels.names()[i] == self.channel());
                    }
                    Ok(membership_snapshot(channel))
                },
                None => Err(String::from_str("Channel not found")),
            }
        } else {
            Err(String::from_str("unknown fetch item"))
        };
        let mut out: Vec<Action> = Vec::new();
        out.push(Action::Reply(PacketType::FetchRes(FetchRes { item: req.item, result })));
        assert(actions_view(out@) =~= fetch_actions(
            channels.channel(self.channel()).ids(),
            req.item@,
        ));
        out
    }

    /// A message from the client: it is broadcast on the connection's
    /// channel.
    pub fn handle_message(&self, msg: Message) -> (out: Vec<Action>)
        ensures
            actions_view(out@) == seq![
                ActionView::Publish {
                    channel: self.channel(),
                    packet: PacketView::Message {
                        id: msg.id@,
                        msg: msg.msg@,
                        is_system: msg.is_system,
                    },
                },
            ],
    {
        let mut out: Vec<Action> = Vec::new();
        out.push(
            Action::Publish {
                channel: self.current_channel.clone(),
                packet: PacketType::Message(msg),
            },
        );
        assert(actions_view(out@) =~= seq![
            ActionView::Publish {
                channel: self.channel(),
                packet: PacketView::Message { id: msg.id@, msg: msg.msg@, is_system: msg.is_system },
            },
        ]);
        out
    }

    /// The client leaves: `identifier` leaves the connection's channel, its
    /// departure is announced there, and the connection is closed.
    pub fn handle_exit(&self, channels: &mut Channels, identifier: &str) -> (out: Vec<Action>)
        requires
            old(channels).wf(),
            old(channels).has(self.channel()),
        ensures
            final(channels).wf(),
            exit_post(self.channel(), *old(channels), *final(channels), identifier@, actions_view(out@)),
    {
        channels.leave_user(self.current_channel.as_str(), identifier);
        let mut out: Vec<Action> = Vec::new();
        out.push(
            Action::Publish {
                channel: self.current_channel.clone(),
                packet: PacketType::Message(Message::disconnection(identifier)),
            },
        );
        out.push(Action::Close);
        assert(actions_view(out@) =~= seq![
            ActionView::Publish { channel: self.channel(), packet: left_notice(identifier@) },
            ActionView::Close,
        ]);
        out
    }

    /// The connection broke without a farewell: `identifier` leaves the
    /// connection's channel, nothing is announced, and the connection is
    /// closed.
    pub fn on_disconnect(&self, channels: &mut Channels, identifier: &str) -> (out: Vec<Action>)
        requires
            old(channels).wf(),
            old(channels).has(self.channel()),
        ensures
            final(channels).wf(),
            final(channels).same_but(old(channels), self.channel()),
            final(channels).channel(self.channel()).ids() == left(
                old(channels).channel(self.channel()).ids(),
                identifier@,
            ),
            actions_view(out@) == seq![ActionView::Close],
    {
        channels.leave_user(self.current_channel.as_str(), identifier);
        let mut out: Vec<Action> = Vec::new();
        out.push(Action::Close);
        assert(actions_view(out@) =~= seq![ActionView::Close]);
        out
    }
}

impl Session {
    /// A request to move to another channel. Where there is no channel of
    /// that name the client is told `Invalid or not permitted` and nothing
    /// changes; a move to the channel that the connection is on is answered
    /// and changes nothing. Otherwise `identifier` leaves the old channel and
    /// asks to join the new one, the connection is on the new channel, and
    /// what is done is [`goto_actions`].
    pub fn handle_goto(&mut self, channels: &mut Channels, identifier: &str, req: GotoReq) -> (out:
        Vec<Action>)
        requires
            old(channels).wf(),
            old(channels).has(old(self).channel()),
        ensures
            final(channels).wf(),
            final(channels).has(final(self).channel()),
            goto_post(
                old(self).channel(),
                req.channel_name@,
                final(self).channel(),
                *old(channels),
                *final(channels),
                identifier@,
                actions_view(out@),
            ),
    {
        let mut out: Vec<Action> = Vec::new();
        let known = channels.get_channel(req.channel_name.as_str()).is_some();
        if !known {
            out.push(
                Action::Reply(
                    PacketType::GotoRes(
                        GotoRes { result: Err(String::from_str("Invalid or not permitted")) },
                    ),
                ),
            );
            assert(actions_view(out@) =~= seq![
                ActionView::Reply(PacketView::GotoRes { result: Err("Invalid or not permitted"@) }),
            ]);
            return out;
        }
        if str_eq(req.channel_name.as_str(), self.current_channel.as_str()) {
            out.push(Action::Reply(PacketType::GotoRes(GotoRes { result: Ok(req.channel_name) })));
            assert(actions_view(out@) =~= seq![
                ActionView::Reply(PacketView::GotoRes { result: Ok(req.channel_name@) }),
            ]);
            return out;
        }
        let ghost start = *channels;
        let from = self.current_channel.clone();
        channels.leave_user(from.as_str(), identifier);
        let ghost mid = *channels;
        channels.add_connection(req.channel_name.as_str(), identifier);
        self.current_channel = req.channel_name.clone();
        out.push(Action::Subscribe { channel: req.channel_name.clone() });
        out.push(
            Action::Publish {
                channel: req.channel_name.clone(),
                packet: PacketType::Connected(Connected {  }),
            },
        );
        out.push(
            Action::Publish {
                channel: from,
                packet: PacketType::Message(Message::disconnection(identifier)),
            },
        );
        out.push(Action::Reply(PacketType::GotoRes(GotoRes { result: Ok(req.channel_name) })));
        proof {
            assert(actions_view(out@) =~= goto_actions(
                old(self).channel(),
                req.channel_name@,
                identifier@,
            ));
            assert(mid.channel(req.channel_name@) == start.channel(req.channel_name@));
            assert(channels.channel(old(self).channel()) == mid.channel(old(self).channel()));
        }
        out
    }

    /// Takes a packet from the client and does what its kind asks for; each
    /// kind has its own function, and this one says no more than they do. A
    /// packet that only a server sends is passed over.
    pub fn handle_packet(&mut self, channels: &mut Channels, identifier: &str, packet: PacketType) -> (out:
        Vec<Action>)
        requires
            old(channels).wf(),
            old(channels).has(old(self).channel()),
        ensures
            final(channels).wf(),
            final(channels).has(final(self).channel()),
            final(channels).names() == old(channels).names(),
            match packet {
                PacketType::RegisterReq(req) => {
                    &&& *final(channels) == *old(channels)
                    &&& final(self).channel() == old(self).channel()
                    &&& actions_view(out@) == register_actions(req.user@)
                },
                PacketType::LoginReq(req) => {
                    &&& final(self).channel() == old(self).channel()
                    &&& login_post(
                        old(self).channel(),
                        *old(channels),
                        *final(channels),
                        req.login_info@,
                        actions_view(out@),
                    )
                },
                PacketType::FetchReq(req) => {
                    &&& *final(channels) == *old(channels)
                    &&& final(self).channel() == old(self).channel()
                    &&& actions_view(out@) == fetch_actions(
                        old(channels).channel(old(self).channel()).ids(),
                        req.item@,
                    )
                },
                PacketType::GotoReq(req) => goto_post(
                    old(self).channel(),
                    req.channel_name@,
                    final(self).channel(),
                    *old(channels),
                    *final(channels),
                    identifier@,
                    actions_view(out@),
                ),
                PacketType::Message(msg) => {
                    &&& *final(channels) == *old(channels)
                    &&& final(self).channel() == old(self).channel()
                    &&& actions_view(out@) == seq![
                        ActionView::Publish {
                            channel: old(self).channel(),
                            packet: PacketView::Message {
                                id: msg.id@,
                                msg: msg.msg@,
                                is_system: msg.is_system,
                            },
                        },
                    ]
                },
                PacketType::Exit(_) => {
                    &&& final(self).channel() == old(self).channel()
                    &&& exit_post(
                        old(self).channel(),
                        *old(channels),
                        *final(channels),
                        identifier@,
                        actions_view(out@),
                    )
                },
                _ => {
                    &&& *final(channels) == *old(channels)
                    &&& final(self).channel() == old(self).channel()
                    &&& actions_view(out@) == Seq::<ActionView>::empty()
                },
            },
    {
        match packet {
            PacketType::RegisterReq(req) => Session::handle_register(req),
            PacketType::LoginReq(req) => self.handle_login(channels, req),
            PacketType::FetchReq(req) => self.handle_fetch(channels, req),
            PacketType::GotoReq(req) => self.handle_goto(channels, identifier, req),
            PacketType::Message(msg) => self.handle_message(msg),
            PacketType::Exit(_) => self.handle_exit(channels, identifier),
            _ => {
                let out: Vec<Action> = Vec::new();
                assert(actions_view(out@) =~= Seq::<ActionView>::empty());
                out
            },
        }
    }
}

} // verus!
