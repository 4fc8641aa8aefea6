use rschat::frame::{
    decode_frame, decode_payload, encode_frame, frame, read_header, unframe, write_header,
    FrameError,
};
use rschat::hash::{sha256_password, sha256_string};
use rschat::json::Json;
use rschat::packet::{
    Connected, Exit, FetchReq, FetchRes, GotoReq, GotoRes, LoginReq, LoginRes, Message,
    PacketType, ParsePacketTypeError, RegisterReq, RegisterRes,
};
use rschat::user::{Login, RegistrationError, User};

fn every_packet() -> Vec<PacketType> {
    vec![
        PacketType::RegisterReq(RegisterReq {
            user: User {
                id: "alice".to_string(),
                password_hash: "V1kT+D8zPcjv5UZY4PqMVxi/S84wAQhxby3Uoyaob6g=".to_string(),
                bio: Some("likes \"quotes\" and \\ slashes".to_string()),
                location: None,
            },
        }),
        PacketType::RegisterRes(RegisterRes { result: Ok(()) }),
        PacketType::RegisterRes(RegisterRes { result: Err("Reserved id format".to_string()) }),
        PacketType::LoginReq(LoginReq { login_info: Login::guest() }),
        PacketType::LoginReq(LoginReq {
            login_info: Login {
                guest: false,
                id: Some("alice".to_string()),
                password_hash: Some("hash".to_string()),
            },
        }),
        PacketType::LoginRes(LoginRes { result: Ok("guest_42".to_string()) }),
        PacketType::LoginRes(LoginRes { result: Err("too many users".to_string()) }),
        PacketType::FetchReq(FetchReq { item: "list".to_string() }),
        PacketType::FetchRes(FetchRes {
            item: "list".to_string(),
            result: Ok(Json::Object(vec![
                ("num_guest".to_string(), Json::from_u64(1)),
                ("num_user".to_string(), Json::from_u64(1)),
                (
                    "user_list".to_string(),
                    Json::Array(vec![
                        Json::String("alice".to_string()),
                        Json::String("guest_42".to_string()),
                    ]),
                ),
            ])),
        }),
        PacketType::FetchRes(FetchRes {
            item: "time".to_string(),
            result: Err("unknown fetch item".to_string()),
        }),
        PacketType::GotoReq(GotoReq { channel_name: "dev".to_string() }),
        PacketType::GotoRes(GotoRes { result: Ok("dev".to_string()) }),
        PacketType::GotoRes(GotoRes { result: Err("Invalid or not permitted".to_string()) }),
        PacketType::Connected(Connected {}),
        PacketType::Message(Message {
            id: "guest_7".to_string(),
            msg: "héllo wörld ✓".to_string(),
            is_system: false,
        }),
        PacketType::Exit(Exit {}),
    ]
}

#[test]
fn every_packet_survives_json_value_round_trip() {
    for packet in every_packet() {
        let json = packet.to_json();
        assert_eq!(PacketType::from_json(&json), Ok(packet));
    }
}

#[test]
fn every_packet_survives_text_round_trip() {
    for packet in every_packet() {
        let text = packet.as_json_string();
        assert_eq!(PacketType::from_str(&text), Ok(packet));
    }
}

#[test]
fn every_packet_survives_frame_round_trip() {
    for packet in every_packet() {
        let mut bytes = encode_frame(&packet).unwrap();
        bytes.extend_from_slice(b"trailing bytes of the next frame");
        assert_eq!(decode_frame(&bytes), Ok(packet));
    }
}

#[test]
fn message_text_carries_type_and_fields() {
    let packet = PacketType::Message(Message {
        id: "guest_1".to_string(),
        msg: "hi".to_string(),
        is_system: false,
    });
    assert_eq!(
        packet.as_json_string(),
        "{\"id\":\"guest_1\",\"is_system\":false,\"msg\":\"hi\",\"type\":\"Message\"}"
    );
    assert_eq!(packet.as_json_bytes(), packet.as_json_string().into_bytes());
}

#[test]
fn results_are_written_as_ok_or_err() {
    let ok = PacketType::LoginRes(LoginRes { result: Ok("alice".to_string()) });
    assert_eq!(ok.as_json_string(), "{\"result\":{\"Ok\":\"alice\"},\"type\":\"LoginRes\"}");
    let err = PacketType::RegisterRes(RegisterRes { result: Err("no".to_string()) });
    assert_eq!(err.as_json_string(), "{\"result\":{\"Err\":\"no\"},\"type\":\"RegisterRes\"}");
    let unit = PacketType::RegisterRes(RegisterRes { result: Ok(()) });
    assert_eq!(unit.as_json_string(), "{\"result\":{\"Ok\":null},\"type\":\"RegisterRes\"}");
}

#[test]
fn packets_are_read_from_text_in_any_member_order() {
    let text = "{\"type\":\"Message\",\"id\":\"bob\",\"msg\":\"yo\",\"is_system\":true,\"extra\":1}";
    assert_eq!(
        PacketType::from_str(text),
        Ok(PacketType::Message(Message {
            id: "bob".to_string(),
            msg: "yo".to_string(),
            is_system: true,
        }))
    );
    assert_eq!(PacketType::from_str("{\"type\":\"Exit\"}"), Ok(PacketType::Exit(Exit {})));
    assert_eq!(
        PacketType::from_str("{\"type\":\"Connected\"}"),
        Ok(PacketType::Connected(Connected {}))
    );
}

#[test]
fn optional_fields_may_be_missing_or_null() {
    let text = "{\"type\":\"LoginReq\",\"login_info\":{\"guest\":true}}";
    assert_eq!(
        PacketType::from_str(text),
        Ok(PacketType::LoginReq(LoginReq { login_info: Login::guest() }))
    );
    let text = "{\"type\":\"LoginReq\",\"login_info\":{\"guest\":true,\"id\":null,\"password_hash\":null}}";
    assert_eq!(
        PacketType::from_str(text),
        Ok(PacketType::LoginReq(LoginReq { login_info: Login::guest() }))
    );
}

#[test]
fn malformed_packets_are_refused() {
    for text in [
        "",
        "not json",
        "[1,2,3]",
        "\"Message\"",
        "{}",
        "{\"type\":7}",
        "{\"type\":\"Nonsense\"}",
        "{\"type\":\"Message\",\"id\":\"a\",\"msg\":\"b\"}",
        "{\"type\":\"Message\",\"id\":\"a\",\"msg\":\"b\",\"is_system\":\"yes\"}",
        "{\"type\":\"GotoReq\"}",
        "{\"type\":\"LoginReq\",\"login_info\":{\"id\":\"a\"}}",
        "{\"type\":\"LoginRes\",\"result\":{\"Ok\":\"a\",\"Err\":\"b\"}}",
        "{\"type\":\"LoginRes\",\"result\":{}}",
        "{\"type\":\"RegisterRes\",\"result\":{\"Ok\":1}}",
        "{\"type\":\"RegisterReq\",\"user\":{\"id\":\"a\",\"password_hash\":\"b\",\"bio\":3}}",
    ] {
        assert_eq!(PacketType::from_str(text), Err(ParsePacketTypeError), "{}", text);
    }
}

#[test]
fn json_objects_answer_with_their_last_entry() {
    let json = Json::Object(vec![
        ("a".to_string(), Json::Bool(false)),
        ("b".to_string(), Json::Null),
        ("a".to_string(), Json::Bool(true)),
    ]);
    assert_eq!(json.get("a"), Some(&Json::Bool(true)));
    assert_eq!(json.get("b"), Some(&Json::Null));
    assert_eq!(json.get("c"), None);
    assert_eq!(json.to_text(), "{\"a\":true,\"b\":null}");
    assert_eq!(Json::Null.get("a"), None);
}

#[test]
fn json_text_is_read_and_written_by_value() {
    let json = Json::parse(" { \"k\" : [ 1 , \"two\" , null , { \"z\" : false } ] } ").unwrap();
    assert_eq!(json.to_text(), "{\"k\":[1,\"two\",null,{\"z\":false}]}");
    assert_eq!(Json::parse(&json.to_text()), Some(json.clone()));
    assert_eq!(json.get("k").unwrap().as_str(), None);
    assert_eq!(Json::String("s".to_string()).as_str(), Some("s"));
    assert_eq!(Json::Bool(true).as_bool(), Some(true));
    assert!(Json::Null.is_null());
    assert_eq!(Json::parse("{"), None);
    assert_eq!(Json::from_u64(42).to_text(), "42");
}

#[test]
fn header_is_big_endian() {
    assert_eq!(write_header(0), vec![0, 0, 0, 0]);
    assert_eq!(write_header(5), vec![0, 0, 0, 5]);
    assert_eq!(write_header(0x0102_0304), vec![1, 2, 3, 4]);
    assert_eq!(write_header(u32::MAX), vec![255, 255, 255, 255]);
    assert_eq!(read_header(&[1, 2, 3, 4, 99]), 0x0102_0304);
    assert_eq!(read_header(&[0, 0, 1, 0]), 256);
}

#[test]
fn frame_is_header_then_payload() {
    assert_eq!(frame(b"hello"), Ok(vec![0, 0, 0, 5, b'h', b'e', b'l', b'l', b'o']));
    assert_eq!(frame(b""), Ok(vec![0, 0, 0, 0]));
    let framed = frame(b"abc").unwrap();
    assert_eq!(unframe(&framed), Some(&b"abc"[..]));
    let mut two = framed.clone();
    two.extend_from_slice(&frame(b"next").unwrap());
    assert_eq!(unframe(&two), Some(&b"abc"[..]));
}

#[test]
fn short_frames_are_incomplete() {
    assert_eq!(unframe(&[]), None);
    assert_eq!(unframe(&[0, 0, 0]), None);
    assert_eq!(unframe(&[0, 0, 0, 2, b'a']), None);
    assert_eq!(decode_frame(&[0, 0, 0, 2, b'a']), Err(FrameError::Incomplete));
    assert_eq!(decode_frame(&[0, 0]), Err(FrameError::Incomplete));
}

#[test]
fn bad_payloads_are_told_apart() {
    assert_eq!(decode_payload(&[0xff, 0xfe]), Err(FrameError::NotUtf8));
    assert_eq!(decode_payload(b"{\"type\":\"Nonsense\"}"), Err(FrameError::NotPacket));
    assert_eq!(decode_payload(b"[]"), Err(FrameError::NotPacket));
    assert_eq!(decode_payload(b"{\"type\":\"Exit\"}"), Ok(PacketType::Exit(Exit {})));
    let framed = frame(&[0xc3, 0x28]).unwrap();
    assert_eq!(decode_frame(&framed), Err(FrameError::NotUtf8));
}

#[test]
fn password_hash_is_salted_sha256_in_base64() {
    assert_eq!(sha256_password("alpine"), "RBZkxHb64eFY3oh/JzXf5bD3yKOgBpS48Idp/okuT64=");
    assert_eq!(sha256_password("pw1234"), "V1kT+D8zPcjv5UZY4PqMVxi/S84wAQhxby3Uoyaob6g=");
    assert_eq!(sha256_password(""), "yi5Me5IMpEKU4Mf8XFn3yUXAHt+c3ffu8XYAm//k2Es=");
    assert_eq!(
        sha256_string(&"abc".to_string()),
        "ungWv48Bz+pBQUDeXa4iI7ADYaOWF3qctBD/YfIAFa0="
    );
    assert_eq!(
        sha256_password("abc"),
        sha256_string(&"abc__simple_password_salt__".to_string())
    );
}

#[test]
fn reserved_ids_and_short_passwords_are_refused() {
    let user = |id: &str, pw: &str| User {
        id: id.to_string(),
        password_hash: pw.to_string(),
        bio: None,
        location: None,
    };
    assert!(matches!(user("alice", "1234").validate(), Ok(())));
    assert!(matches!(user("root_2", "123456").validate(), Err(RegistrationError::ReservedId)));
    assert!(matches!(user("root", "123456").validate(), Err(RegistrationError::ReservedId)));
    assert!(matches!(user("rooted", "123456").validate(), Err(RegistrationError::ReservedId)));
    assert!(matches!(user("guest_9", "123456").validate(), Err(RegistrationError::ReservedId)));
    assert!(matches!(user("guest", "123456").validate(), Ok(())));
    assert!(matches!(user("roo", "123456").validate(), Ok(())));
    assert!(matches!(user("bob", "123").validate(), Err(RegistrationError::ShortPassword)));
    assert!(matches!(user("root", "1").validate(), Err(RegistrationError::ReservedId)));
    assert_eq!(RegistrationError::ReservedId.reason(), "Reserved id format");
    assert_eq!(
        RegistrationError::ShortPassword.reason(),
        "too short password! (password >= 4)"
    );
}

#[test]
fn notices_name_the_id() {
    assert_eq!(
        Message::connection("alice"),
        Message { id: "alice".to_string(), msg: "'alice' has joined".to_string(), is_system: true }
    );
    assert_eq!(
        Message::disconnection("guest_3"),
        Message {
            id: "guest_3".to_string(),
            msg: "'guest_3' has left".to_string(),
            is_system: true
        }
    );
}
