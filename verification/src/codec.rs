//! Writing packets as JSON and reading them back.
//!
//! Every function here is proved against the definitions of
//! [`crate::packet`]: what is built is `packet_json` of the packet, what is
//! read is `parse_packet` of the value.

use vstd::prelude::*;
use vstd::string::StrSliceExecFns;
use vstd::string::StringExecFns;
use crate::json::entries_view;
use crate::json::json_text;
use crate::json::Json;
use crate::json::JsonView;
use crate::packet::bool_field;
use crate::packet::err_json;
use crate::packet::lemma_wire_names;
use crate::packet::login_json;
use crate::packet::ok_json;
use crate::packet::opt_text_field;
use crate::packet::opt_text_json;
use crate::packet::packet_json;
use crate::packet::parse_login;
use crate::packet::parse_packet;
use crate::packet::parse_packet_text;
use crate::packet::parse_result;
use crate::packet::parse_user;
use crate::packet::parse_variant;
use crate::packet::result_field;
use crate::packet::tagged;
use crate::packet::text_field;
use crate::packet::text_result_field;
use crate::packet::text_result_json;
use crate::packet::unit_result_field;
use crate::packet::unit_result_json;
use crate::packet::user_json;
use crate::packet::Connected;
use crate::packet::Exit;
use crate::packet::FetchReq;
use crate::packet::FetchRes;
use crate::packet::GotoReq;
use crate::packet::GotoRes;
use crate::packet::LoginReq;
use crate::packet::LoginRes;
use crate::packet::Message;
use crate::packet::PacketType;
use crate::packet::PacketView;
use crate::packet::ParsePacketTypeError;
use crate::packet::RegisterReq;
use crate::packet::RegisterRes;
use crate::text::str_eq;
use crate::user::opt_view;
use crate::user::Login;
use crate::user::User;

verus! {

/// Adds the member `key` to a list of object entries.
fn push_member(entries: &mut Vec<(String, Json)>, key: &str, value: Json)
    ensures
        entries_view(final(entries)@) == entries_view(old(entries)@).insert(key@, value@),
{
    entries.push((String::from_str(key), value));
    assert(entries@.drop_last() =~= old(entries)@);
}

/// The JSON string of a text.
fn text_to_json(s: &str) -> (j: Json)
    ensures
        j@ == JsonView::String(s@),
{
    Json::String(String::from_str(s))
}

/// The JSON form of an optional text.
fn opt_text_to_json(s: &Option<String>) -> (j: Json)
    ensures
        j@ == opt_text_json(opt_view(*s)),
{
    match s {
        Some(x) => text_to_json(x.as_str()),
        None => Json::Null,
    }
}

/// The JSON form of a success that carries `v`.
fn ok_to_json(v: Json) -> (j: Json)
    ensures
        j@ == ok_json(v@),
{
    let mut entries: Vec<(String, Json)> = Vec::new();
    push_member(&mut entries, "Ok", v);
    Json::Object(entries)
}

/// The JSON form of a failure for the given reason.
fn err_to_json(reason: &str) -> (j: Json)
    ensures
        j@ == err_json(reason@),
{
    let mut entries: Vec<(String, Json)> = Vec::new();
    push_member(&mut entries, "Err", text_to_json(reason));
    Json::Object(entries)
}

/// The JSON form of a result that carries an id or a channel name.
fn text_result_to_json(r: &Result<String, String>) -> (j: Json)
    ensures
        j@ == text_result_json(crate::packet::text_result_view(*r)),
{
    match r {
        Ok(s) => ok_to_json(text_to_json(s.as_str())),
        Err(e) => err_to_json(e.as_str()),
    }
}

/// The JSON form of a user record.
fn user_to_json(u: &User) -> (j: Json)
    ensures
        j@ == user_json(u@),
{
    let mut entries: Vec<(String, Json)> = Vec::new();
    push_member(&mut entries, "id", text_to_json(u.id.as_str()));
    push_member(&mut entries, "password_hash", text_to_json(u.password_hash.as_str()));
    push_member(&mut entries, "bio", opt_text_to_json(&u.bio));
    push_member(&mut entries, "location", opt_text_to_json(&u.location));
    Json::Object(entries)
}

/// The JSON form of a login credential.
fn login_to_json(l: &Login) -> (j: Json)
    ensures
        j@ == login_json(l@),
{
    let mut entries: Vec<(String, Json)> = Vec::new();
    push_member(&mut entries, "guest", Json::Bool(l.guest));
    push_member(&mut entries, "id", opt_text_to_json(&l.id));
    push_member(&mut entries, "password_hash", opt_text_to_json(&l.password_hash));
    Json::Object(entries)
}

/// Closes a packet's object: adds the variant's name to its fields.
fn tagged_json(name: &str, fields: Vec<(String, Json)>) -> (j: Json)
    ensures
        j@ == tagged(name@, entries_view(fields@)),
{
    let mut entries = fields;
    push_member(&mut entries, "type", text_to_json(name));
    Json::Object(entries)
}

/// The text member `key` of `j`.
fn get_text(j: &Json, key: &str) -> (r: Option<String>)
    ensures
        opt_view(r) == text_field(j@, key@),
{
    match j.get(key) {
        Some(v) => match v.as_str() {
            Some(s) => Some(String::from_str(s)),
            None => None,
        },
        None => None,
    }
}

/// The boolean member `key` of `j`.
fn get_bool(j: &Json, key: &str) -> (r: Option<bool>)
    ensures
        r == bool_field(j@, key@),
{
    match j.get(key) {
        Some(v) => v.as_bool(),
        None => None,
    }
}

/// The optional text member `key` of `j`.
fn get_opt_text(j: &Json, key: &str) -> (r: Option<Option<String>>)
    ensures
        match r {
            Some(x) => opt_text_field(j@, key@) == Some(opt_view(x)),
            None => opt_text_field(j@, key@) is None,
        },
{
    match j.get(key) {
        None => Some(None),
        Some(v) => match v {
            Json::Null => Some(None),
            Json::String(s) => Some(Some(s.clone())),
            _ => None,
        },
    }
}

/// The result that `j` writes.
fn get_result(j: &Json) -> (r: Option<Result<&Json, String>>)
    ensures
        match r {
            Some(Ok(v)) => parse_result(j@) == Some(Ok::<JsonView, Seq<char>>(v@)),
            Some(Err(e)) => parse_result(j@) == Some(Err::<JsonView, Seq<char>>(e@)),
            None => parse_result(j@) is None,
        },
{
    match (j.get("Ok"), j.get("Err")) {
        (Some(v), None) => Some(Ok(v)),
        (None, Some(e)) => match e.as_str() {
            Some(reason) => Some(Err(String::from_str(reason))),
            None => None,
        },
        _ => None,
    }
}

/// The result member `key` of `j`, where a success carries text.
fn get_text_result(j: &Json, key: &str) -> (r: Option<Result<String, String>>)
    ensures
        match r {
            Some(x) => text_result_field(j@, key@) == Some(crate::packet::text_result_view(x)),
            None => text_result_field(j@, key@) is None,
        },
{
    match j.get(key) {
        Some(inner) => match get_result(inner) {
            Some(Ok(v)) => match v.as_str() {
                Some(s) => Some(Ok(String::from_str(s))),
                None => None,
            },
            Some(Err(e)) => Some(Err(e)),
            None => None,
        },
        None => None,
    }
}

/// The result member `key` of `j`, where a success carries `null`.
fn get_unit_result(j: &Json, key: &str) -> (r: Option<Result<(), String>>)
    ensures
        match r {
            Some(x) => unit_result_field(j@, key@) == Some(crate::packet::unit_result_view(x)),
            None => unit_result_field(j@, key@) is None,
        },
{
    match j.get(key) {
        Some(inner) => match get_result(inner) {
            Some(Ok(v)) => if v.is_null() {
                Some(Ok(()))
            } else {
                None
            },
            Some(Err(e)) => Some(Err(e)),
            None => None,
        },
        None => None,
    }
}

/// The result member `key` of `j`, where a success carries any value.
fn get_json_result(j: &Json, key: &str) -> (r: Option<Result<Json, String>>)
    ensures
        match r {
            Some(x) => result_field(j@, key@) == Some(crate::packet::json_result_view(x)),
            None => result_field(j@, key@) is None,
        },
{
    match j.get(key) {
        Some(inner) => match get_result(inner) {
            Some(Ok(v)) => Some(Ok(v.clone())),
            Some(Err(e)) => Some(Err(e)),
            None => None,
        },
        None => None,
    }
}

/// The user record that `j` writes.
fn user_from_json(j: &Json) -> (r: Option<User>)
    ensures
        match r {
            Some(u) => parse_user(j@) == Some(u@),
            None => parse_user(j@) is None,
        },
{
    let id = get_text(j, "id");
    let password_hash = get_text(j, "password_hash");
    let bio = get_opt_text(j, "bio");
    let location = get_opt_text(j, "location");
    match (id, password_hash, bio, location) {
        (Some(id), Some(password_hash), Some(bio), Some(location)) => Some(
            User { id, password_hash, bio, location },
        ),
        _ => None,
    }
}

/// The login credential that `j` writes.
fn login_from_json(j: &Json) -> (r: Option<Login>)
    ensures
        match r {
            Some(l) => parse_login(j@) == Some(l@),
            None => parse_login(j@) is None,
        },
{
    let guest = get_bool(j, "guest");
    let id = get_opt_text(j, "id");
    let password_hash = get_opt_text(j, "password_hash");
    match (guest, id, password_hash) {
        (Some(guest), Some(id), Some(password_hash)) => Some(Login { guest, id, password_hash }),
        _ => None,
    }
}

/// The packet of variant `name` that the fields of `j` write.
fn variant_from_json(name: &str, j: &Json) -> (r: Option<PacketType>)
    ensures
        match r {
            Some(p) => parse_variant(name@, j@) == Some(p@),
            None => parse_variant(name@, j@) is None,
        },
{
    if str_eq(name, "RegisterReq") {
        match j.get("user") {
            Some(u) => match user_from_json(u) {
                Some(user) => Some(PacketType::RegisterReq(RegisterReq { user })),
                None => None,
            },
            None => None,
        }
    } else if str_eq(name, "RegisterRes") {
        match get_unit_result(j, "result") {
            Some(result) => Some(PacketType::RegisterRes(RegisterRes { result })),
            None => None,
        }
    } else if str_eq(name, "LoginReq") {
        match j.get("login_info") {
            Some(l) => match login_from_json(l) {
                Some(login_info) => Some(PacketType::LoginReq(LoginReq { login_info })),
                None => None,
            },
            None => None,
        }
    } else if str_eq(name, "LoginRes") {
        match get_text_result(j, "result") {
            Some(result) => Some(PacketType::LoginRes(LoginRes { result })),
            None => None,
        }
    } else if str_eq(name, "FetchReq") {
        match get_text(j, "item") {
            Some(item) => Some(PacketType::FetchReq(FetchReq { item })),
            None => None,
        }
    } else if str_eq(name, "FetchRes") {
        let item = get_text(j, "item");
        let result = get_json_result(j, "result");
        match (item, result) {
            (Some(item), Some(result)) => Some(PacketType::FetchRes(FetchRes { item, result })),
            _ => None,
        }
    } else if str_eq(name, "GotoReq") {
        match get_text(j, "channel_name") {
            Some(channel_name) => Some(PacketType::GotoReq(GotoReq { channel_name })),
            None => None,
        }
    } else if str_eq(name, "GotoRes") {
        match get_text_result(j, "result") {
            Some(result) => Some(PacketType::GotoRes(GotoRes { result })),
            None => None,
        }
    } else if str_eq(name, "Message") {
        let id = get_text(j, "id");
        let msg = get_text(j, "msg");
        let is_system = get_bool(j, "is_system");
        match (id, msg, is_system) {
            (Some(id), Some(msg), Some(is_system)) => Some(
                PacketType::Message(Message { id, msg, is_system }),
            ),
            _ => None,
        }
    } else if str_eq(name, "Connected") {
        Some(PacketType::Connected(Connected {  }))
    } else if str_eq(name, "Exit") {
        Some(PacketType::Exit(Exit {  }))
    } else {
        None
    }
}

impl PacketType {
    /// The JSON form of this packet.
    pub fn to_json(&self) -> (j: Json)
        ensures
            j@ == packet_json(self@),
    {
        let mut fields: Vec<(String, Json)> = Vec::new();
        match self {
            PacketType::RegisterReq(p) => {
                push_member(&mut fields, "user", user_to_json(&p.user));
                tagged_json("RegisterReq", fields)
            },
            PacketType::RegisterRes(p) => {
                let result = match &p.result {
                    Ok(_) => ok_to_json(Json::Null),
                    Err(e) => err_to_json(e.as_str()),
                };
                push_member(&mut fields, "result", result);
                tagged_json("RegisterRes", fields)
            },
            PacketType::LoginReq(p) => {
                push_member(&mut fields, "login_info", login_to_json(&p.login_info));
                tagged_json("LoginReq", fields)
            },
            PacketType::LoginRes(p) => {
                push_member(&mut fields, "result", text_result_to_json(&p.result));
                tagged_json("LoginRes", fields)
            },
            PacketType::FetchReq(p) => {
                push_member(&mut fields, "item", text_to_json(p.item.as_str()));
                tagged_json("FetchReq", fields)
            },
            PacketType::FetchRes(p) => {
                let result = match &p.result {
                    Ok(v) => ok_to_json(v.clone()),
                    Err(e) => err_to_json(e.as_str()),
                };
                push_member(&mut fields, "item", text_to_json(p.item.as_str()));
                push_member(&mut fields, "result", result);
                tagged_json("FetchRes", fields)
            },
            PacketType::GotoReq(p) => {
                push_member(&mut fields, "channel_name", text_to_json(p.channel_name.as_str()));
                tagged_json("GotoReq", fields)
            },
            PacketType::GotoRes(p) => {
                push_member(&mut fields, "result", text_result_to_json(&p.result));
                tagged_json("GotoRes", fields)
            },
            PacketType::Connected(_) => tagged_json("Connected", fields),
            PacketType::Message(p) => {
                push_member(&mut fields, "id", text_to_json(p.id.as_str()));
                push_member(&mut fields, "msg", text_to_json(p.msg.as_str()));
                push_member(&mut fields, "is_system", Json::Bool(p.is_system));
                tagged_json("Message", fields)
            },
            PacketType::Exit(_) => tagged_json("Exit", fields),
        }
    }

    /// The packet that a JSON value writes. Fails where the value is no
    /// object, has no text under `"type"`, names no known variant, or lacks
    /// a field of its variant.
    pub fn from_json(j: &Json) -> (r: Result<PacketType, ParsePacketTypeError>)
        ensures
            match r {
                Ok(p) => parse_packet(j@) == Some(p@),
                Err(_) => parse_packet(j@) is None,
            },
    {
        match j.get("type") {
            Some(t) => match t.as_str() {
                Some(name) => match variant_from_json(name, j) {
                    Some(p) => Ok(p),
                    None => Err(ParsePacketTypeError),
                },
                None => Err(ParsePacketTypeError),
            },
            None => Err(ParsePacketTypeError),
        }
    }

    /// The packet that a JSON text writes. Fails where the text is no JSON
    /// or its value is no packet.
    pub fn from_str(s: &str) -> (r: Result<PacketType, ParsePacketTypeError>)
        ensures
            match r {
                Ok(p) => parse_packet_text(s@) == Some(p@),
                Err(_) => parse_packet_text(s@) is None,
            },
    {
        match Json::parse(s) {
            Some(j) => PacketType::from_json(&j),
            None => Err(ParsePacketTypeError),
        }
    }

    /// This packet as JSON text.
    pub fn as_json_string(&self) -> (s: String)
        ensures
            s@ == json_text(packet_json(self@)),
    {
        self.to_json().to_text()
    }

    /// This packet as the bytes of its JSON text.
    pub fn as_json_bytes(&self) -> (bytes: Vec<u8>)
        ensures
            bytes@ == vstd::utf8::encode_utf8(json_text(packet_json(self@))),
    {
        let s = self.as_json_string();
        s.as_str().as_bytes_vec()
    }
}

/// Reading the JSON form of a packet gives the packet back.
pub proof fn lemma_packet_round_trip(p: PacketView)
    ensures
        parse_packet(packet_json(p)) == Some(p),
{
    lemma_wire_names();
    let j = packet_json(p);
    match p {
        PacketView::RegisterReq { user } => {
            assert(parse_user(user_json(user)) == Some(user));
        },
        PacketView::RegisterRes { result } => {
            let inner = unit_result_json(result);
            assert(j.member("result"@) == Some(inner));
            match result {
                Ok(u) => {
                    assert(u == ());
                    assert(parse_result(inner) == Some(Ok::<JsonView, Seq<char>>(JsonView::Null)));
                },
                Err(e) => {
                    assert(parse_result(inner) == Some(Err::<JsonView, Seq<char>>(e)));
                },
            }
            assert(unit_result_field(j, "result"@) == Some(result));
        },
        PacketView::LoginReq { login_info } => {
            assert(parse_login(login_json(login_info)) == Some(login_info));
        },
        PacketView::LoginRes { result } => {
            assert(text_result_field(j, "result"@) == Some(result));
        },
        PacketView::FetchReq { item } => {},
        PacketView::FetchRes { item, result } => {
            assert(result_field(j, "result"@) == Some(result));
        },
        PacketView::GotoReq { channel_name } => {},
        PacketView::GotoRes { result } => {
            assert(text_result_field(j, "result"@) == Some(result));
        },
        PacketView::Connected => {},
        PacketView::Message { id, msg, is_system } => {},
        PacketView::Exit => {},
    }
}

} // verus!
