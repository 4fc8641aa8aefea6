//! What the client does on a command and on the server's answer to it.
//!
//! The client's screen and its socket are the caller's; the decisions are
//! made here. A command becomes a [`Step`], and an answer from the server
//! becomes a [`Notice`] and, where the answer says so, a change of the
//! client's [`State`].

use vstd::prelude::*;
use vstd::string::StringExecFns;
use crate::client::CommandAction;
use crate::client::State;
use crate::command::Command;
use crate::command::CommandView;
use crate::command::Fetch;
use crate::command::ParseCommandError;
use crate::command::ParseCommandErrorView;
use crate::hash::password_salt;
use crate::hash::sha256_password;
use crate::hash::sha256_text;
use crate::json::json_text;
use crate::packet::Exit;
use crate::packet::FetchReq;
use crate::packet::GotoReq;
use crate::packet::LoginReq;
use crate::packet::PacketType;
use crate::packet::PacketView;
use crate::packet::RegisterReq;
use crate::text::concat;
use crate::text::str_eq;
use crate::user::Login;
use crate::user::LoginView;
use crate::user::User;
use crate::user::UserView;

verus! {

/// A line for the list of messages: a notice of the program, or an error
/// notice.
#[derive(Clone, Debug, PartialEq, Eq)]
pub struct Notice {
    pub error: bool,
    pub text: String,
}

/// The mathematical value of a [`Notice`].
pub struct NoticeView {
    pub error: bool,
    pub text: Seq<char>,
}

impl View for Notice {
    type V = NoticeView;

    open spec fn view(&self) -> NoticeView {
        NoticeView { error: self.error, text: self.text@ }
    }
}

/// What the client does next on a command.
#[derive(Debug, PartialEq)]
pub enum Step {
    /// Show the help.
    ShowHelp,
    /// Show the notice.
    Show(Notice),
    /// Open the dialogue for logging in or for registering.
    Open(CommandAction),
    /// Send the packet and wait for the server's answer to it.
    Ask(PacketType),
    /// Send the packet and leave the program.
    Leave(PacketType),
}

/// The mathematical value of a [`Step`].
pub enum StepView {
    ShowHelp,
    Show(NoticeView),
    Open(CommandAction),
    Ask(PacketView),
    Leave(PacketView),
}

impl View for Step {
    type V = StepView;

    open spec fn view(&self) -> StepView {
        match self {
            Step::ShowHelp => StepView::ShowHelp,
            Step::Show(n) => StepView::Show(n@),
            Step::Open(a) => StepView::Open(*a),
            Step::Ask(p) => StepView::Ask(p@),
            Step::Leave(p) => StepView::Leave(p@),
        }
    }
}

/// `text` between `before` and `after`.
pub open spec fn wrapped(before: Seq<char>, text: Seq<char>, after: Seq<char>) -> Seq<char> {
    before + text + after
}

/// A notice of the program.
pub open spec fn plain(text: Seq<char>) -> NoticeView {
    NoticeView { error: false, text }
}

/// An error notice of the program.
pub open spec fn failure(text: Seq<char>) -> NoticeView {
    NoticeView { error: true, text }
}

/// What the client does on a command, where `id` is the id in use.
pub open spec fn step_of_command(command: CommandView, id: Seq<char>) -> StepView {
    match command {
        CommandView::Help => StepView::ShowHelp,
        CommandView::Get(item) => if item == "info"@ || item == "name"@ {
            StepView::Show(plain(wrapped("Your ID: '"@, id, "'"@)))
        } else {
            StepView::Show(failure(wrapped("Unknown item for 'get' command: '"@, item, "'"@)))
        },
        CommandView::Register => StepView::Open(CommandAction::Register),
        CommandView::Login(_) => StepView::Open(CommandAction::Login),
        CommandView::Fetch(Fetch::UserList) => StepView::Ask(
            PacketView::FetchReq { item: "list"@ },
        ),
        CommandView::Fetch(Fetch::Unknown) => StepView::Show(failure("Unhandled fetch item"@)),
        CommandView::Goto(channel_name) => StepView::Ask(PacketView::GotoReq { channel_name }),
        CommandView::Exit => StepView::Leave(PacketView::Exit),
    }
}

/// What the client does on a line that is no command.
pub open spec fn step_of_error(e: ParseCommandErrorView) -> StepView {
    match e {
        ParseCommandErrorView::NotCommand => StepView::Show(failure("NotCommand"@)),
        ParseCommandErrorView::InvalidArgument(text) => StepView::Show(failure(text)),
        ParseCommandErrorView::UnknownCommand(name) => StepView::Show(
            failure("Unknown command: "@ + name),
        ),
    }
}

/// `text` between `before` and `after`.
fn wrap(before: &str, text: &str, after: &str) -> (s: String)
    ensures
        s@ == wrapped(before@, text@, after@),
{
    let mut s = concat(before, text);
    s.append(after);
    s
}

/// What the client does on a command line that has been read: see
/// [`step_of_command`] and [`step_of_error`].
pub fn step_for(parsed: Result<Command, ParseCommandError>, state: &State) -> (step: Step)
    ensures
        step@ == match parsed {
            Ok(command) => step_of_command(command@, state.id@),
            Err(e) => step_of_error(e@),
        },
{
    match parsed {
        Ok(Command::Help) => Step::ShowHelp,
        Ok(Command::Get(item)) => {
            if str_eq(item.as_str(), "info") || str_eq(item.as_str(), "name") {
                Step::Show(Notice { error: false, text: wrap("Your ID: '", state.id.as_str(), "'") })
            } else {
                Step::Show(
                    Notice {
                        error: true,
                        text: wrap("Unknown item for 'get' command: '", item.as_str(), "'"),
                    },
                )
            }
        },
        Ok(Command::Register) => Step::Open(CommandAction::Register),
        Ok(Command::Login(_)) => Step::Open(CommandAction::Login),
        Ok(Command::Fetch(fetch)) => match fetch {
            Fetch::UserList => Step::Ask(
                PacketType::FetchReq(FetchReq { item: String::from_str("list") }),
            ),
            Fetch::Unknown => Step::Show(
                Notice { error: true, text: String::from_str("Unhandled fetch item") },
            ),
        },
        Ok(Command::Goto(channel_name)) => Step::Ask(PacketType::GotoReq(GotoReq { channel_name })),
        Ok(Command::Exit) => Step::Leave(PacketType::Exit(Exit {  })),
        Err(ParseCommandError::NotCommand) => Step::Show(
            Notice { error: true, text: String::from_str("NotCommand") },
        ),
        Err(ParseCommandError::InvalidArgument(text)) => Step::Show(Notice { error: true, text }),
        Err(ParseCommandError::UnknownCommand(name)) => Step::Show(
            Notice { error: true, text: concat("Unknown command: ", name.as_str()) },
        ),
    }
}

/// The request to log in as `id` with `password`, or the notice that the
/// client is logged in already.
pub fn login_request(state: &State, id: &str, password: &str) -> (r: Result<PacketType, Notice>)
    ensures
        match r {
            Ok(p) => state.is_guest && p@ == (PacketView::LoginReq {
                login_info: LoginView {
                    guest: false,
                    id: Some(id@),
                    password_hash: Some(sha256_text(password@ + password_salt())),
                },
            }),
            Err(n) => !state.is_guest && n@ == failure("You are already logged in"@),
        },
{
    if !state.is_guest {
        return Err(Notice { error: true, text: String::from_str("You are already logged in") });
    }
    Ok(
        PacketType::LoginReq(
            LoginReq {
                login_info: Login {
                    guest: false,
                    id: Some(String::from_str(id)),
                    password_hash: Some(sha256_password(password)),
                },
            },
        ),
    )
}

/// The text of an optional line of a form.
pub open spec fn opt_text(s: Option<&str>) -> Option<Seq<char>> {
    match s {
        Some(x) => Some(x@),
        None => None,
    }
}

/// The request to register `id` with `password`, or the notice that one of
/// the two is empty.
pub fn register_request(id: &str, password: &str, bio: Option<&str>, location: Option<&str>) -> (r:
    Result<PacketType, Notice>)
    ensures
        match r {
            Ok(p) => id@.len() > 0 && password@.len() > 0 && p@ == (PacketView::RegisterReq {
                user: UserView {
                    id: id@,
                    password_hash: sha256_text(password@ + password_salt()),
                    bio: opt_text(bio),
                    location: opt_text(location),
                },
            }),
            Err(n) => (id@.len() == 0 || password@.len() == 0) && n@ == failure(
                "ID or Password is empty"@,
            ),
        },
{
    if id.is_empty() || password.is_empty() {
        return Err(Notice { error: true, text: String::from_str("ID or Password is empty") });
    }
    let bio = match bio {
        Some(x) => Some(String::from_str(x)),
        None => None,
    };
    let location = match location {
        Some(x) => Some(String::from_str(x)),
        None => None,
    };
    Ok(
        PacketType::RegisterReq(
            RegisterReq {
                user: User {
                    id: String::from_str(id),
                    password_hash: sha256_password(password),
                    bio,
                    location,
                },
            },
        ),
    )
}

/// Whether `answer` is the server's answer to the request `asked`.
pub open spec fn answers(asked: PacketView, answer: PacketView) -> bool {
    ||| asked is LoginReq && answer is LoginRes
    ||| asked is RegisterReq && answer is RegisterRes
    ||| asked is FetchReq && answer is FetchRes
    ||| asked is GotoReq && answer is GotoRes
}

/// The notice that the client shows for the server's answer to a request.
pub open spec fn notice_of_answer(answer: PacketView) -> NoticeView {
    match answer {
        PacketView::LoginRes { result: Ok(_) } => plain("Success!"@),
        PacketView::LoginRes { result: Err(e) } => failure(wrapped("Failure: '"@, e, "'"@)),
        PacketView::RegisterRes { result: Ok(_) } => plain("Success!"@),
        PacketView::RegisterRes { result: Err(e) } => plain("Failure: "@ + e),
        PacketView::FetchRes { item, result } => if item == "list"@ {
            match result {
                Ok(v) => plain(json_text(v)),
                Err(e) => failure(e),
            }
        } else {
            failure(wrapped("unknown item: '"@, item, "'"@))
        },
        PacketView::GotoRes { result: Ok(name) } => plain(
            wrapped("You've succesfully switched to the channel: '"@, name, "'"@),
        ),
        PacketView::GotoRes { result: Err(e) } => failure(
            wrapped("failed to join channel: '"@, e, "'"@),
        ),
        _ => plain(Seq::empty()),
    }
}

/// The id in use after the server's answer to a request: the id that a
/// successful login asked for, else the id as it was.
pub open spec fn id_after(id: Seq<char>, asked: PacketView, answer: PacketView) -> Seq<char> {
    match (asked, answer) {
        (
            PacketView::LoginReq { login_info: LoginView { id: Some(wanted), .. } },
            PacketView::LoginRes { result: Ok(_) },
        ) => wanted,
        _ => id,
    }
}

/// Whether the client is a guest after the server's answer to a request:
/// not after a successful login, else as it was.
pub open spec fn guest_after(is_guest: bool, asked: PacketView, answer: PacketView) -> bool {
    is_guest && !(asked is LoginReq && answer matches PacketView::LoginRes { result: Ok(_) })
}

/// The channel that the client is on after the server's answer to a
/// request: the channel of a successful move, else the channel as it was.
pub open spec fn channel_after(channel: Seq<char>, asked: PacketView, answer: PacketView) -> Seq<
    char,
> {
    match (asked, answer) {
        (PacketView::GotoReq { .. }, PacketView::GotoRes { result: Ok(name) }) => name,
        _ => channel,
    }
}

/// Takes a packet from the server while the client waits for the answer to
/// `asked`. Gives `None`, and changes nothing, where the packet is no answer
/// to `asked`: the client goes on waiting. Otherwise gives the notice to
/// show, and the client is who and where the answer says.
pub fn on_answer(state: &mut State, asked: &PacketType, answer: &PacketType) -> (r: Option<Notice>)
    ensures
        match r {
            Some(n) => {
                &&& answers(asked@, answer@)
                &&& n@ == notice_of_answer(answer@)
                &&& final(state).id@ == id_after(old(state).id@, asked@, answer@)
                &&& final(state).is_guest == guest_after(old(state).is_guest, asked@, answer@)
                &&& final(state).channel@ == channel_after(old(state).channel@, asked@, answer@)
            },
            None => {
                &&& !answers(asked@, answer@)
                &&& final(state).id@ == old(state).id@
                &&& final(state).is_guest == old(state).is_guest
                &&& final(state).channel@ == old(state).channel@
            },
        },
{
    match (asked, answer) {
        (PacketType::LoginReq(req), PacketType::LoginRes(res)) => match &res.result {
            Ok(_) => {
                match &req.login_info.id {
                    Some(wanted) => {
                        state.id = wanted.clone();
                    },
                    None => {},
                }
                state.is_guest = false;
                Some(Notice { error: false, text: String::from_str("Success!") })
            },
            Err(e) => Some(Notice { error: true, text: wrap("Failure: '", e.as_str(), "'") }),
        },
        (PacketType::RegisterReq(_), PacketType::RegisterRes(res)) => match &res.result {
            Ok(_) => Some(Notice { error: false, text: String::from_str("Success!") }),
            Err(e) => Some(Notice { error: false, text: concat("Failure: ", e.as_str()) }),
        },
        (PacketType::FetchReq(_), PacketType::FetchRes(res)) => {
            if str_eq(res.item.as_str(), "list") {
                match &res.result {
                    Ok(v) => Some(Notice { error: false, text: v.to_text() }),
                    Err(e) => Some(Notice { error: true, text: e.clone() }),
                }
            } else {
                Some(
                    Notice { error: true, text: wrap("unknown item: '", res.item.as_str(), "'") },
                )
            }
        },
        (PacketType::GotoReq(_), PacketType::GotoRes(res)) => match &res.result {
            Ok(name) => {
                state.channel = name.clone();
                Some(
                    Notice {
                        error: false,
                        text: wrap(
                            "You've succesfully switched to the channel: '",
                            name.as_str(),
                            "'",
                        ),
                    },
                )
            },
            Err(e) => Some(
                Notice { error: true, text: wrap("failed to join channel: '", e.as_str(), "'") },
            ),
        },
        _ => None,
    }
}

} // verus!
