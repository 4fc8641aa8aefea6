//! The packets that client and server exchange, and their JSON form.
//!
//! On the wire a packet is a JSON object whose member `"type"` names the
//! variant; the other members are the variant's fields. A result is written
//! as `{"Ok": value}` or `{"Err": "reason"}`. [`packet_json`] says what is
//! written for a packet and [`parse_packet`] what is read from a JSON value;
//! reading what was written gives the packet back
//! ([`lemma_packet_round_trip`]).

use vstd::prelude::*;
use vstd::string::StringExecFns;
use crate::json::json_parse;
use crate::json::Json;
use crate::json::JsonView;
use crate::text::concat;
use crate::user::Login;
use crate::user::LoginView;
use crate::user::User;
use crate::user::UserView;

verus! {

/// `Clone::clone` of `Result`: the clone has the variant of the value that
/// is cloned and holds a clone of what that value holds.
pub assume_specification<T: Clone, E: Clone>[ <Result<T, E> as Clone>::clone ](
    r: &Result<T, E>,
) -> (res: Result<T, E>)
    ensures
        r is Ok ==> res is Ok && cloned::<T>(r->Ok_0, res->Ok_0),
        r is Err ==> res is Err && cloned::<E>(r->Err_0, res->Err_0),
;

/// A chat message, from a client or from the server itself.
#[derive(Clone, Debug, PartialEq, Eq)]
pub struct Message {
    pub id: String,
    pub msg: String,
    pub is_system: bool,
}

/// Asks the server to create an account.
#[derive(Clone, Debug, PartialEq, Eq)]
pub struct RegisterReq {
    pub user: User,
}

/// The server's answer to a [`RegisterReq`].
#[derive(Clone, Debug, PartialEq, Eq)]
pub struct RegisterRes {
    pub result: Result<(), String>,
}

/// Asks the server to log the connection in.
#[derive(Clone, Debug, PartialEq, Eq)]
pub struct LoginReq {
    pub login_info: Login,
}

/// The server's answer to a [`LoginReq`]: the id now in use, or a reason.
#[derive(Clone, Debug, PartialEq, Eq)]
pub struct LoginRes {
    pub result: Result<String, String>,
}

/// Asks the server for an item of information.
#[derive(Clone, Debug, PartialEq, Eq)]
pub struct FetchReq {
    pub item: String,
}

/// The server's answer to a [`FetchReq`].
#[derive(Clone, Debug, PartialEq)]
pub struct FetchRes {
    pub item: String,
    pub result: Result<Json, String>,
}

/// Asks the server to move the connection to another channel.
#[derive(Clone, Debug, PartialEq, Eq)]
pub struct GotoReq {
    pub channel_name: String,
}

/// The server's answer to a [`GotoReq`]: the channel now joined, or a reason.
#[derive(Clone, Debug, PartialEq, Eq)]
pub struct GotoRes {
    pub result: Result<String, String>,
}

/// Marks that a connection has joined a channel's broadcast.
#[derive(Clone, Debug, PartialEq, Eq)]
pub struct Connected {}

/// Tells the server that the client leaves.
#[derive(Clone, Debug, PartialEq, Eq)]
pub struct Exit {}

/// Any packet.
#[derive(Clone, Debug, PartialEq)]
pub enum PacketType {
    RegisterReq(RegisterReq),
    RegisterRes(RegisterRes),
    LoginReq(LoginReq),
    LoginRes(LoginRes),
    FetchReq(FetchReq),
    FetchRes(FetchRes),
    GotoReq(GotoReq),
    GotoRes(GotoRes),
    Connected(Connected),
    Message(Message),
    Exit(Exit),
}

/// A text or a JSON value is no packet.
#[derive(Debug, PartialEq, Eq)]
pub struct ParsePacketTypeError;

/// The mathematical value of a packet.
pub enum PacketView {
    RegisterReq { user: UserView },
    RegisterRes { result: Result<(), Seq<char>> },
    LoginReq { login_info: LoginView },
    LoginRes { result: Result<Seq<char>, Seq<char>> },
    FetchReq { item: Seq<char> },
    FetchRes { item: Seq<char>, result: Result<JsonView, Seq<char>> },
    GotoReq { channel_name: Seq<char> },
    GotoRes { result: Result<Seq<char>, Seq<char>> },
    Connected,
    Message { id: Seq<char>, msg: Seq<char>, is_system: bool },
    Exit,
}

/// The value of a result that carries an id or a channel name.
pub open spec fn text_result_view(r: Result<String, String>) -> Result<Seq<char>, Seq<char>> {
    match r {
        Ok(s) => Ok(s@),
        Err(e) => Err(e@),
    }
}

/// The value of a result that carries nothing.
pub open spec fn unit_result_view(r: Result<(), String>) -> Result<(), Seq<char>> {
    match r {
        Ok(_) => Ok(()),
        Err(e) => Err(e@),
    }
}

/// The value of a result that carries a JSON value.
pub open spec fn json_result_view(r: Result<Json, String>) -> Result<JsonView, Seq<char>> {
    match r {
        Ok(j) => Ok(j@),
        Err(e) => Err(e@),
    }
}

impl View for PacketType {
    type V = PacketView;

    open spec fn view(&self) -> PacketView {
        match self {
            PacketType::RegisterReq(p) => PacketView::RegisterReq { user: p.user@ },
            PacketType::RegisterRes(p) => PacketView::RegisterRes {
                result: unit_result_view(p.result),
            },
            PacketType::LoginReq(p) => PacketView::LoginReq { login_info: p.login_info@ },
            PacketType::LoginRes(p) => PacketView::LoginRes { result: text_result_view(p.result) },
            PacketType::FetchReq(p) => PacketView::FetchReq { item: p.item@ },
            PacketType::FetchRes(p) => PacketView::FetchRes {
                item: p.item@,
                result: json_result_view(p.result),
            },
            PacketType::GotoReq(p) => PacketView::GotoReq { channel_name: p.channel_name@ },
            PacketType::GotoRes(p) => PacketView::GotoRes { result: text_result_view(p.result) },
            PacketType::Connected(_) => PacketView::Connected,
            PacketType::Message(p) => PacketView::Message {
                id: p.id@,
                msg: p.msg@,
                is_system: p.is_system,
            },
            PacketType::Exit(_) => PacketView::Exit,
        }
    }
}

/// The text of the notice that `id` has joined.
pub open spec fn joined_text(id: Seq<char>) -> Seq<char> {
    "'"@ + id + "' has joined"@
}

/// The text of the notice that `id` has left.
pub open spec fn left_text(id: Seq<char>) -> Seq<char> {
    "'"@ + id + "' has left"@
}

impl Message {
    /// The server's notice that `id` has joined.
    pub fn connection(id: &str) -> (m: Message)
        ensures
            m.id@ == id@,
            m.msg@ == joined_text(id@),
            m.is_system,
    {
        let mut msg = concat("'", id);
        msg.append("' has joined");
        Message { id: String::from_str(id), msg, is_system: true }
    }

    /// The server's notice that `id` has left.
    pub fn disconnection(id: &str) -> (m: Message)
        ensures
            m.id@ == id@,
            m.msg@ == left_text(id@),
            m.is_system,
    {
        let mut msg = concat("'", id);
        msg.append("' has left");
        Message { id: String::from_str(id), msg, is_system: true }
    }
}

/// The JSON form of an optional text: the text, or `null`.
pub open spec fn opt_text_json(s: Option<Seq<char>>) -> JsonView {
    match s {
        Some(x) => JsonView::String(x),
        None => JsonView::Null,
    }
}

/// The JSON form of a success.
pub open spec fn ok_json(v: JsonView) -> JsonView {
    JsonView::Object(Map::empty().insert("Ok"@, v))
}

/// The JSON form of a failure.
pub open spec fn err_json(reason: Seq<char>) -> JsonView {
    JsonView::Object(Map::empty().insert("Err"@, JsonView::String(reason)))
}

/// The JSON form of a result that carries an id or a channel name.
pub open spec fn text_result_json(r: Result<Seq<char>, Seq<char>>) -> JsonView {
    match r {
        Ok(s) => ok_json(JsonView::String(s)),
        Err(e) => err_json(e),
    }
}

/// The JSON form of a result that carries nothing.
pub open spec fn unit_result_json(r: Result<(), Seq<char>>) -> JsonView {
    match r {
        Ok(_) => ok_json(JsonView::Null),
        Err(e) => err_json(e),
    }
}

/// The JSON form of a result that carries a JSON value.
pub open spec fn json_result_json(r: Result<JsonView, Seq<char>>) -> JsonView {
    match r {
        Ok(v) => ok_json(v),
        Err(e) => err_json(e),
    }
}

/// The JSON form of a user record.
pub open spec fn user_json(u: UserView) -> JsonView {
    JsonView::Object(
        Map::empty().insert("id"@, JsonView::String(u.id)).insert(
            "password_hash"@,
            JsonView::String(u.password_hash),
        ).insert("bio"@, opt_text_json(u.bio)).insert("location"@, opt_text_json(u.location)),
    )
}

/// The JSON form of a login credential.
pub open spec fn login_json(l: LoginView) -> JsonView {
    JsonView::Object(
        Map::empty().insert("guest"@, JsonView::Bool(l.guest)).insert(
            "id"@,
            opt_text_json(l.id),
        ).insert("password_hash"@, opt_text_json(l.password_hash)),
    )
}

/// An object with the given fields and the variant's name under `"type"`.
pub open spec fn tagged(name: Seq<char>, fields: Map<Seq<char>, JsonView>) -> JsonView {
    JsonView::Object(fields.insert("type"@, JsonView::String(name)))
}

/// The JSON form of a packet.
pub open spec fn packet_json(p: PacketView) -> JsonView {
    match p {
        PacketView::RegisterReq { user } => tagged(
            "RegisterReq"@,
            Map::empty().insert("user"@, user_json(user)),
        ),
        PacketView::RegisterRes { result } => tagged(
            "RegisterRes"@,
            Map::empty().insert("result"@, unit_result_json(result)),
        ),
        PacketView::LoginReq { login_info } => tagged(
            "LoginReq"@,
            Map::empty().insert("login_info"@, login_json(login_info)),
        ),
        PacketView::LoginRes { result } => tagged(
            "LoginRes"@,
            Map::empty().insert("result"@, text_result_json(result)),
        ),
        PacketView::FetchReq { item } => tagged(
            "FetchReq"@,
            Map::empty().insert("item"@, JsonView::String(item)),
        ),
        PacketView::FetchRes { item, result } => tagged(
            "FetchRes"@,
            Map::empty().insert("item"@, JsonView::String(item)).insert(
                "result"@,
                json_result_json(result),
            ),
        ),
        PacketView::GotoReq { channel_name } => tagged(
            "GotoReq"@,
            Map::empty().insert("channel_name"@, JsonView::String(channel_name)),
        ),
        PacketView::GotoRes { result } => tagged(
            "GotoRes"@,
            Map::empty().insert("result"@, text_result_json(result)),
        ),
        PacketView::Connected => tagged("Connected"@, Map::empty()),
        PacketView::Message { id, msg, is_system } => tagged(
            "Message"@,
            Map::empty().insert("id"@, JsonView::String(id)).insert(
                "msg"@,
                JsonView::String(msg),
            ).insert("is_system"@, JsonView::Bool(is_system)),
        ),
        PacketView::Exit => tagged("Exit"@, Map::empty()),
    }
}

/// The text member `key` of `j`; `None` where it is missing or no text.
pub open spec fn text_field(j: JsonView, key: Seq<char>) -> Option<Seq<char>> {
    match j.member(key) {
        Some(JsonView::String(s)) => Some(s),
        _ => None,
    }
}

/// The boolean member `key` of `j`; `None` where it is missing or no boolean.
pub open spec fn bool_field(j: JsonView, key: Seq<char>) -> Option<bool> {
    match j.member(key) {
        Some(JsonView::Bool(b)) => Some(b),
        _ => None,
    }
}

/// The optional text member `key` of `j`: a missing member and `null` both
/// read as no text; `None` where the member is anything but text or `null`.
pub open spec fn opt_text_field(j: JsonView, key: Seq<char>) -> Option<Option<Seq<char>>> {
    match j.member(key) {
        None => Some(None),
        Some(JsonView::Null) => Some(None),
        Some(JsonView::String(s)) => Some(Some(s)),
        _ => None,
    }
}

/// The result that `j` writes: an object with a member `"Ok"` and no member
/// `"Err"`, or the reverse. The failure's reason must be text.
pub open spec fn parse_result(j: JsonView) -> Option<Result<JsonView, Seq<char>>> {
    match (j.member("Ok"@), j.member("Err"@)) {
        (Some(v), None) => Some(Ok(v)),
        (None, Some(JsonView::String(e))) => Some(Err(e)),
        _ => None,
    }
}

/// The result member `key` of `j`.
pub open spec fn result_field(j: JsonView, key: Seq<char>) -> Option<Result<JsonView, Seq<char>>> {
    match j.member(key) {
        Some(r) => parse_result(r),
        None => None,
    }
}

/// The result member `key` of `j`, where a success carries text.
pub open spec fn text_result_field(j: JsonView, key: Seq<char>) -> Option<
    Result<Seq<char>, Seq<char>>,
> {
    match result_field(j, key) {
        Some(Ok(JsonView::String(s))) => Some(Ok(s)),
        Some(Err(e)) => Some(Err(e)),
        _ => None,
    }
}

/// The result member `key` of `j`, where a success carries `null`.
pub open spec fn unit_result_field(j: JsonView, key: Seq<char>) -> Option<Result<(), Seq<char>>> {
    match result_field(j, key) {
        Some(Ok(JsonView::Null)) => Some(Ok(())),
        Some(Err(e)) => Some(Err(e)),
        _ => None,
    }
}

/// The user record that `j` writes.
pub open spec fn parse_user(j: JsonView) -> Option<UserView> {
    match (
        text_field(j, "id"@),
        text_field(j, "password_hash"@),
        opt_text_field(j, "bio"@),
        opt_text_field(j, "location"@),
    ) {
        (Some(id), Some(password_hash), Some(bio), Some(location)) => Some(
            UserView { id, password_hash, bio, location },
        ),
        _ => None,
    }
}

/// The login credential that `j` writes.
pub open spec fn parse_login(j: JsonView) -> Option<LoginView> {
    match (bool_field(j, "guest"@), opt_text_field(j, "id"@), opt_text_field(j, "password_hash"@)) {
        (Some(guest), Some(id), Some(password_hash)) => Some(
            LoginView { guest, id, password_hash },
        ),
        _ => None,
    }
}

/// The packet of variant `name` that the fields of `j` write.
pub open spec fn parse_variant(name: Seq<char>, j: JsonView) -> Option<PacketView> {
    if name == "RegisterReq"@ {
        match j.member("user"@) {
            Some(u) => match parse_user(u) {
                Some(user) => Some(PacketView::RegisterReq { user }),
                None => None,
            },
            None => None,
        }
    } else if name == "RegisterRes"@ {
        match unit_result_field(j, "result"@) {
            Some(result) => Some(PacketView::RegisterRes { result }),
            None => None,
        }
    } else if name == "LoginReq"@ {
        match j.member("login_info"@) {
            Some(l) => match parse_login(l) {
                Some(login_info) => Some(PacketView::LoginReq { login_info }),
                None => None,
            },
            None => None,
        }
    } else if name == "LoginRes"@ {
        match text_result_field(j, "result"@) {
            Some(result) => Some(PacketView::LoginRes { result }),
            None => None,
        }
    } else if name == "FetchReq"@ {
        match text_field(j, "item"@) {
            Some(item) => Some(PacketView::FetchReq { item }),
            None => None,
        }
    } else if name == "FetchRes"@ {
        match (text_field(j, "item"@), result_field(j, "result"@)) {
            (Some(item), Some(result)) => Some(PacketView::FetchRes { item, result }),
            _ => None,
        }
    } else if name == "GotoReq"@ {
        match text_field(j, "channel_name"@) {
            Some(channel_name) => Some(PacketView::GotoReq { channel_name }),
            None => None,
        }
    } else if name == "GotoRes"@ {
        match text_result_field(j, "result"@) {
            Some(result) => Some(PacketView::GotoRes { result }),
            None => None,
        }
    } else if name == "Message"@ {
        match (text_field(j, "id"@), text_field(j, "msg"@), bool_field(j, "is_system"@)) {
            (Some(id), Some(msg), Some(is_system)) => Some(
                PacketView::Message { id, msg, is_system },
            ),
            _ => None,
        }
    } else if name == "Connected"@ {
        Some(PacketView::Connected)
    } else if name == "Exit"@ {
        Some(PacketView::Exit)
    } else {
        None
    }
}

/// The packet that a JSON value writes: `None` where the value is no object,
/// has no text under `"type"`, names no known variant, or lacks a field of
/// its variant. Members that the variant does not know are passed over.
pub open spec fn parse_packet(j: JsonView) -> Option<PacketView> {
    match text_field(j, "type"@) {
        Some(name) => parse_variant(name, j),
        None => None,
    }
}

/// The packet that a JSON text writes: `None` where the text is no JSON or
/// its value is no packet.
pub open spec fn parse_packet_text(text: Seq<char>) -> Option<PacketView> {
    match json_parse(text) {
        Some(j) => parse_packet(j),
        None => None,
    }
}

/// Makes known what the names of variants and fields are, letter by letter.
pub proof fn lemma_wire_names()
    ensures
        "type"@ =~= seq!['t', 'y', 'p', 'e'],
        "id"@ =~= seq!['i', 'd'],
        "msg"@ =~= seq!['m', 's', 'g'],
        "is_system"@ =~= seq!['i', 's', '_', 's', 'y', 's', 't', 'e', 'm'],
        "user"@ =~= seq!['u', 's', 'e', 'r'],
        "password_hash"@ =~= seq![
            'p',
            'a',
            's',
            's',
            'w',
            'o',
            'r',
            'd',
            '_',
            'h',
            'a',
            's',
            'h',
        ],
        "bio"@ =~= seq!['b', 'i', 'o'],
        "location"@ =~= seq!['l', 'o', 'c', 'a', 't', 'i', 'o', 'n'],
        "login_info"@ =~= seq!['l', 'o', 'g', 'i', 'n', '_', 'i', 'n', 'f', 'o'],
        "guest"@ =~= seq!['g', 'u', 'e', 's', 't'],
        "item"@ =~= seq!['i', 't', 'e', 'm'],
        "result"@ =~= seq!['r', 'e', 's', 'u', 'l', 't'],
        "channel_name"@ =~= seq!['c', 'h', 'a', 'n', 'n', 'e', 'l', '_', 'n', 'a', 'm', 'e'],
        "Ok"@ =~= seq!['O', 'k'],
        "Err"@ =~= seq!['E', 'r', 'r'],
        "RegisterReq"@ =~= seq!['R', 'e', 'g', 'i', 's', 't', 'e', 'r', 'R', 'e', 'q'],
        "RegisterRes"@ =~= seq!['R', 'e', 'g', 'i', 's', 't', 'e', 'r', 'R', 'e', 's'],
        "LoginReq"@ =~= seq!['L', 'o', 'g', 'i', 'n', 'R', 'e', 'q'],
        "LoginRes"@ =~= seq!['L', 'o', 'g', 'i', 'n', 'R', 'e', 's'],
        "FetchReq"@ =~= seq!['F', 'e', 't', 'c', 'h', 'R', 'e', 'q'],
        "FetchRes"@ =~= seq!['F', 'e', 't', 'c', 'h', 'R', 'e', 's'],
        "GotoReq"@ =~= seq!['G', 'o', 't', 'o', 'R', 'e', 'q'],
        "GotoRes"@ =~= seq!['G', 'o', 't', 'o', 'R', 'e', 's'],
        "Connected"@ =~= seq!['C', 'o', 'n', 'n', 'e', 'c', 't', 'e', 'd'],
        "Message"@ =~= seq!['M', 'e', 's', 's', 'a', 'g', 'e'],
        "Exit"@ =~= seq!['E', 'x', 'i', 't'],
{
    reveal_strlit("type");
    reveal_strlit("id");
    reveal_strlit("msg");
    reveal_strlit("is_system");
    reveal_strlit("user");
    reveal_strlit("password_hash");
    reveal_strlit("bio");
    reveal_strlit("location");
    reveal_strlit("login_info");
    reveal_strlit("guest");
    reveal_strlit("item");
    reveal_strlit("result");
    reveal_strlit("channel_name");
    reveal_strlit("Ok");
    reveal_strlit("Err");
    reveal_strlit("RegisterReq");
    reveal_strlit("RegisterRes");
    reveal_strlit("LoginReq");
    reveal_strlit("LoginRes");
    reveal_strlit("FetchReq");
    reveal_strlit("FetchRes");
    reveal_strlit("GotoReq");
    reveal_strlit("GotoRes");
    reveal_strlit("Connected");
    reveal_strlit("Message");
    reveal_strlit("Exit");
}

} // verus!
