//! The commands that a user types into the client.
//!
//! A command is a line that begins with `/`. The word after the `/`, up to
//! the first blank, names the command; what follows the blank, without the
//! white space around it, is its argument.

use vstd::prelude::*;
use vstd::string::StringExecFns;
use crate::text::chars_of;
use crate::text::lemma_trimmed_bounds;
use crate::text::str_eq;
use crate::text::string_of;
use crate::text::trim;
use crate::text::trim_end;
use crate::text::trim_end_at;
use crate::text::trim_start_at;
use crate::text::trimmed_end;

verus! {

/// What a `fetch` command asks the server for.
#[derive(Clone, Copy, Debug, PartialEq, Eq, Structural)]
pub enum Fetch {
    /// The members of the channel.
    UserList,
    /// Nothing that the client knows of.
    Unknown,
}

/// A command.
#[derive(Clone, Debug, PartialEq, Eq)]
pub enum Command {
    Help,
    Get(String),
    Register,
    Login(Option<String>),
    Fetch(Fetch),
    Goto(String),
    Exit,
}

/// Why a line is no command.
#[derive(Clone, Debug, PartialEq, Eq)]
pub enum ParseCommandError {
    /// The line does not begin with `/`.
    NotCommand,
    /// The command lacks its argument; the text says which.
    InvalidArgument(String),
    /// There is no command of this name.
    UnknownCommand(String),
}

/// The mathematical value of a [`Command`].
pub enum CommandView {
    Help,
    Get(Seq<char>),
    Register,
    Login(Option<Seq<char>>),
    Fetch(Fetch),
    Goto(Seq<char>),
    Exit,
}

/// The mathematical value of a [`ParseCommandError`].
pub enum ParseCommandErrorView {
    NotCommand,
    InvalidArgument(Seq<char>),
    UnknownCommand(Seq<char>),
}

impl View for Command {
    type V = CommandView;

    open spec fn view(&self) -> CommandView {
        match self {
            Command::Help => CommandView::Help,
            Command::Get(s) => CommandView::Get(s@),
            Command::Register => CommandView::Register,
            Command::Login(s) => CommandView::Login(crate::user::opt_view(*s)),
            Command::Fetch(f) => CommandView::Fetch(*f),
            Command::Goto(s) => CommandView::Goto(s@),
            Command::Exit => CommandView::Exit,
        }
    }
}

impl View for ParseCommandError {
    type V = ParseCommandErrorView;

    open spec fn view(&self) -> ParseCommandErrorView {
        match self {
            ParseCommandError::NotCommand => ParseCommandErrorView::NotCommand,
            ParseCommandError::InvalidArgument(s) => ParseCommandErrorView::InvalidArgument(s@),
            ParseCommandError::UnknownCommand(s) => ParseCommandErrorView::UnknownCommand(s@),
        }
    }
}

/// The position of the first blank in `s` at or after `i`, or the length of
/// `s` where there is none.
pub open spec fn blank_from(s: Seq<char>, i: int) -> int
    decreases s.len() - i,
{
    if i >= s.len() {
        s.len() as int
    } else if s[i] == ' ' {
        i
    } else {
        blank_from(s, i + 1)
    }
}

/// The command that a name and an argument make.
pub open spec fn command_of(name: Seq<char>, arg: Option<Seq<char>>) -> Result<
    CommandView,
    ParseCommandErrorView,
> {
    if name == "exit"@ {
        Ok(CommandView::Exit)
    } else if name == "help"@ || name == "h"@ {
        Ok(CommandView::Help)
    } else if name == "register"@ || name == "reg"@ {
        Ok(CommandView::Register)
    } else if name == "login"@ {
        Ok(CommandView::Login(arg))
    } else if name == "get"@ {
        match arg {
            Some(item) => Ok(CommandView::Get(item)),
            None => Err(
                ParseCommandErrorView::InvalidArgument(
                    "Command 'get' requires an argument: '[key]'"@,
                ),
            ),
        }
    } else if name == "fetch"@ {
        Ok(
            CommandView::Fetch(
                if arg == Some("list"@) {
                    Fetch::UserList
                } else {
                    Fetch::Unknown
                },
            ),
        )
    } else if name == "goto"@ {
        match arg {
            Some(channel) => Ok(CommandView::Goto(channel)),
            None => Err(
                ParseCommandErrorView::InvalidArgument(
                    "[#SystemError] Command 'goto' requires an argument: [channel_name]"@,
                ),
            ),
        }
    } else {
        Err(ParseCommandErrorView::UnknownCommand(name))
    }
}

/// The command that a line writes.
pub open spec fn parse_command(s: Seq<char>) -> Result<CommandView, ParseCommandErrorView> {
    if s.len() == 0 || s[0] != '/' {
        Err(ParseCommandErrorView::NotCommand)
    } else {
        let line = trim_end(s);
        let blank = blank_from(line, 0);
        let name = line.subrange(1, blank);
        let arg = if blank < line.len() {
            Some(trim(line.subrange(blank + 1, line.len() as int)))
        } else {
            None
        };
        command_of(name, arg)
    }
}

/// The first blank lies within the string, and not before where the search
/// began.
pub proof fn lemma_blank_from(s: Seq<char>, i: int)
    requires
        0 <= i <= s.len(),
    ensures
        i <= blank_from(s, i) <= s.len(),
    decreases s.len() - i,
{
    if i < s.len() && s[i] != ' ' {
        lemma_blank_from(s, i + 1);
    }
}

/// The command that a name and an argument make.
fn make_command(name: &str, arg: Option<String>) -> (r: Result<Command, ParseCommandError>)
    ensures
        match r {
            Ok(c) => command_of(name@, crate::user::opt_view(arg)) == Ok::<
                CommandView,
                ParseCommandErrorView,
            >(c@),
            Err(e) => command_of(name@, crate::user::opt_view(arg)) == Err::<
                CommandView,
                ParseCommandErrorView,
            >(e@),
        },
{
    if str_eq(name, "exit") {
        Ok(Command::Exit)
    } else if str_eq(name, "help") || str_eq(name, "h") {
        Ok(Command::Help)
    } else if str_eq(name, "register") || str_eq(name, "reg") {
        Ok(Command::Register)
    } else if str_eq(name, "login") {
        Ok(Command::Login(arg))
    } else if str_eq(name, "get") {
        match arg {
            Some(item) => Ok(Command::Get(item)),
            None => Err(
                ParseCommandError::InvalidArgument(
                    String::from_str("Command 'get' requires an argument: '[key]'"),
                ),
            ),
        }
    } else if str_eq(name, "fetch") {
        let list = match &arg {
            Some(item) => str_eq(item.as_str(), "list"),
            None => false,
        };
        Ok(
            Command::Fetch(
                if list {
                    Fetch::UserList
                } else {
                    Fetch::Unknown
                },
            ),
        )
    } else if str_eq(name, "goto") {
        match arg {
            Some(channel) => Ok(Command::Goto(channel)),
            None => Err(
                ParseCommandError::InvalidArgument(
                    String::from_str(
                        "[#SystemError] Command 'goto' requires an argument: [channel_name]",
                    ),
                ),
            ),
        }
    } else {
        Err(ParseCommandError::UnknownCommand(String::from_str(name)))
    }
}

impl Command {
    /// The command that a line writes. Fails with `NotCommand` where the
    /// line does not begin with `/`, with `UnknownCommand` where the word
    /// after the `/` names no command, and with `InvalidArgument` where
    /// `get` or `goto` comes without an argument.
    pub fn from_str(s: &str) -> (r: Result<Command, ParseCommandError>)
        ensures
            match r {
                Ok(c) => parse_command(s@) == Ok::<CommandView, ParseCommandErrorView>(c@),
                Err(e) => parse_command(s@) == Err::<CommandView, ParseCommandErrorView>(e@),
            },
    {
        let chars = chars_of(s);
        if chars.len() == 0 || chars[0] != '/' {
            return Err(ParseCommandError::NotCommand);
        }
        let end = trim_end_at(&chars, 0, chars.len());
        let ghost line = trim_end(s@);
        proof {
            lemma_trimmed_bounds(s@);
            assert(chars@.subrange(0, chars@.len() as int) =~= s@);
            assert(line =~= chars@.subrange(0, end as int));
            lemma_blank_from(line, 0);
        }
        let mut blank: usize = 0;
        while blank < end && chars[blank] != ' '
            invariant
                blank <= end <= chars@.len(),
                line == chars@.subrange(0, end as int),
                blank_from(line, 0) == blank_from(line, blank as int),
            decreases end - blank,
        {
            blank += 1;
        }
        proof {
            assert(blank_from(line, 0) == blank);
            assert(crate::text::is_space(chars@[0]) == false);
            assert(end >= 1) by {
                if end == 0 {
                    assert(trimmed_end(s@) == 0);
                    assert(s@.len() > 0);
                    lemma_first_kept(s@);
                }
            }
            assert(blank >= 1) by {
                if blank == 0 {
                    assert(line[0] == ' ');
                }
            }
        }
        let name = string_of(&chars, 1, blank);
        let arg = if blank < end {
            let stop = trim_end_at(&chars, blank + 1, end);
            let start = trim_start_at(&chars, blank + 1, stop);
            let arg = string_of(&chars, start, stop);
            proof {
                let rest = line.subrange(blank + 1, line.len() as int);
                assert(rest =~= chars@.subrange(blank + 1, end as int));
                let t = trim_end(rest);
                assert(t =~= chars@.subrange(blank + 1, stop as int));
                assert(arg@ =~= trim(rest));
            }
            Some(arg)
        } else {
            None
        };
        proof {
            assert(name@ =~= line.subrange(1, blank as int));
        }
        make_command(name.as_str(), arg)
    }
}

/// A string that begins with a character that is no white space keeps at
/// least that character when its end is trimmed.
pub proof fn lemma_first_kept(s: Seq<char>)
    requires
        s.len() > 0,
        !crate::text::is_space(s[0]),
    ensures
        trimmed_end(s) >= 1,
    decreases s.len(),
{
    if s.len() > 1 && crate::text::is_space(s.last()) {
        assert(s.drop_last()[0] == s[0]);
        lemma_first_kept(s.drop_last());
    }
}

} // verus!
