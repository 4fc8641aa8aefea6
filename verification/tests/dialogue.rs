use rschat::client::{CommandAction, State};
use rschat::command::Command;
use rschat::dialogue::{login_request, on_answer, register_request, step_for, Notice, Step};
use rschat::hash::sha256_password;
use rschat::json::Json;
use rschat::packet::{
    Exit, FetchReq, FetchRes, GotoReq, GotoRes, LoginReq, LoginRes, Message, PacketType,
    RegisterReq, RegisterRes,
};
use rschat::user::{Login, User};

fn plain(text: &str) -> Notice {
    Notice { error: false, text: text.to_string() }
}

fn failure(text: &str) -> Notice {
    Notice { error: true, text: text.to_string() }
}

fn step(line: &str) -> Step {
    step_for(Command::from_str(line), &State::new_guest("guest_9"))
}

#[test]
fn commands_become_steps() {
    assert_eq!(step("/help"), Step::ShowHelp);
    assert_eq!(step("/get name"), Step::Show(plain("Your ID: 'guest_9'")));
    assert_eq!(step("/get info"), Step::Show(plain("Your ID: 'guest_9'")));
    assert_eq!(step("/get age"), Step::Show(failure("Unknown item for 'get' command: 'age'")));
    assert_eq!(step("/register"), Step::Open(CommandAction::Register));
    assert_eq!(step("/login bob"), Step::Open(CommandAction::Login));
    assert_eq!(
        step("/fetch list"),
        Step::Ask(PacketType::FetchReq(FetchReq { item: "list".to_string() }))
    );
    assert_eq!(step("/fetch"), Step::Show(failure("Unhandled fetch item")));
    assert_eq!(
        step("/goto dev"),
        Step::Ask(PacketType::GotoReq(GotoReq { channel_name: "dev".to_string() }))
    );
    assert_eq!(step("/exit"), Step::Leave(PacketType::Exit(Exit {})));
    assert_eq!(step("/jump"), Step::Show(failure("Unknown command: jump")));
    assert_eq!(step("hello"), Step::Show(failure("NotCommand")));
    assert_eq!(
        step("/get"),
        Step::Show(failure("Command 'get' requires an argument: '[key]'"))
    );
}

#[test]
fn requests_are_built_from_the_forms() {
    let guest = State::new_guest("guest_9");
    assert_eq!(
        login_request(&guest, "alice", "pw1234"),
        Ok(PacketType::LoginReq(LoginReq {
            login_info: Login {
                guest: false,
                id: Some("alice".to_string()),
                password_hash: Some("V1kT+D8zPcjv5UZY4PqMVxi/S84wAQhxby3Uoyaob6g=".to_string()),
            },
        }))
    );
    let mut user = guest.clone();
    user.is_guest = false;
    assert_eq!(login_request(&user, "alice", "pw1234"), Err(failure("You are already logged in")));

    assert_eq!(
        register_request("alice", "pw1234", Some("hi"), None),
        Ok(PacketType::RegisterReq(RegisterReq {
            user: User {
                id: "alice".to_string(),
                password_hash: sha256_password("pw1234"),
                bio: Some("hi".to_string()),
                location: None,
            },
        }))
    );
    assert_eq!(register_request("", "pw", None, None), Err(failure("ID or Password is empty")));
    assert_eq!(register_request("al", "", None, None), Err(failure("ID or Password is empty")));
}

#[test]
fn answers_change_the_state_and_are_shown() {
    let mut state = State::new_guest("guest_9");
    let asked = login_request(&state, "alice", "pw1234").unwrap();

    let chat = PacketType::Message(Message {
        id: "bob".to_string(),
        msg: "hi".to_string(),
        is_system: false,
    });
    assert_eq!(on_answer(&mut state, &asked, &chat), None);
    let other = PacketType::GotoRes(GotoRes { result: Ok("dev".to_string()) });
    assert_eq!(on_answer(&mut state, &asked, &other), None);
    assert_eq!((state.id.as_str(), state.channel.as_str(), state.is_guest), ("guest_9", "public", true));

    let refused = PacketType::LoginRes(LoginRes { result: Err("Wrong ID or Password".to_string()) });
    assert_eq!(
        on_answer(&mut state, &asked, &refused),
        Some(failure("Failure: 'Wrong ID or Password'"))
    );
    assert!(state.is_guest);

    let granted = PacketType::LoginRes(LoginRes { result: Ok("alice".to_string()) });
    assert_eq!(on_answer(&mut state, &asked, &granted), Some(plain("Success!")));
    assert_eq!((state.id.as_str(), state.is_guest), ("alice", false));

    let goto = PacketType::GotoReq(GotoReq { channel_name: "dev".to_string() });
    assert_eq!(
        on_answer(&mut state, &goto, &other),
        Some(plain("You've succesfully switched to the channel: 'dev'"))
    );
    assert_eq!(state.channel, "dev");
    let no = PacketType::GotoRes(GotoRes { result: Err("Invalid or not permitted".to_string()) });
    assert_eq!(
        on_answer(&mut state, &goto, &no),
        Some(failure("failed to join channel: 'Invalid or not permitted'"))
    );
    assert_eq!(state.channel, "dev");

    let register = register_request("carol", "pw1234", None, None).unwrap();
    let done = PacketType::RegisterRes(RegisterRes { result: Ok(()) });
    assert_eq!(on_answer(&mut state, &register, &done), Some(plain("Success!")));
    let taken = PacketType::RegisterRes(RegisterRes { result: Err("Reserved id format".to_string()) });
    assert_eq!(
        on_answer(&mut state, &register, &taken),
        Some(plain("Failure: Reserved id format"))
    );

    let fetch = PacketType::FetchReq(FetchReq { item: "list".to_string() });
    let list = PacketType::FetchRes(FetchRes {
        item: "list".to_string(),
        result: Ok(Json::Object(vec![("num_user".to_string(), Json::from_u64(2))])),
    });
    assert_eq!(on_answer(&mut state, &fetch, &list), Some(plain("{\"num_user\":2}")));
    let odd = PacketType::FetchRes(FetchRes {
        item: "time".to_string(),
        result: Err("unknown fetch item".to_string()),
    });
    assert_eq!(on_answer(&mut state, &fetch, &odd), Some(failure("unknown item: 'time'")));
    let failed = PacketType::FetchRes(FetchRes {
        item: "list".to_string(),
        result: Err("no list".to_string()),
    });
    assert_eq!(on_answer(&mut state, &fetch, &failed), Some(failure("no list")));
    assert_eq!((state.id.as_str(), state.channel.as_str(), state.is_guest), ("alice", "dev", false));
}
