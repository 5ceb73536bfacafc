//! From a line of input to a command: the command that the first word of
//! the line names, and the arguments that the other words are.

use crate::error::{ArgFault, ReplError, ReplErrorView};
use crate::json::{json_valid, JsonText};
use crate::table::{lookup, named, CommandKind};
use crate::views::{maybe_view, result_view, some_view, texts};
use crate::words::{tokenize, words};
use vstd::prelude::*;

verus! {

/// A command with its arguments, ready to run.
#[derive(PartialEq, Eq, Debug)]
pub enum Command {
    Hash,
    Peers,
    Dump,
    Pub { value: JsonText },
    Put { topic: String, uuid: String, value: JsonText },
    Del { topic: String, uuid: String },
    Quit,
}

/// A [`Command`] as a mathematical value.
pub enum CommandView {
    Hash,
    Peers,
    Dump,
    Pub { value: Seq<char> },
    Put { topic: Seq<char>, uuid: Seq<char>, value: Seq<char> },
    Del { topic: Seq<char>, uuid: Seq<char> },
    Quit,
}

impl View for Command {
    type V = CommandView;

    open spec fn view(&self) -> CommandView {
        match self {
            Command::Hash => CommandView::Hash,
            Command::Peers => CommandView::Peers,
            Command::Dump => CommandView::Dump,
            Command::Pub { value } => CommandView::Pub { value: value@ },
            Command::Put { topic, uuid, value } => CommandView::Put {
                topic: topic@,
                uuid: uuid@,
                value: value@,
            },
            Command::Del { topic, uuid } => CommandView::Del { topic: topic@, uuid: uuid@ },
            Command::Quit => CommandView::Quit,
        }
    }
}

impl CommandView {
    /// The entry of the command table that the command belongs to.
    pub open spec fn kind(self) -> CommandKind {
        match self {
            CommandView::Hash => CommandKind::Hash,
            CommandView::Peers => CommandKind::Peers,
            CommandView::Dump => CommandKind::Dump,
            CommandView::Pub { .. } => CommandKind::Pub,
            CommandView::Put { .. } => CommandKind::Put,
            CommandView::Del { .. } => CommandKind::Del,
            CommandView::Quit => CommandKind::Quit,
        }
    }
}

impl Command {
    /// The entry of the command table that the command belongs to.
    pub fn kind(&self) -> (r: CommandKind)
        ensures
            r == self@.kind(),
    {
        match self {
            Command::Hash => CommandKind::Hash,
            Command::Peers => CommandKind::Peers,
            Command::Dump => CommandKind::Dump,
            Command::Pub { .. } => CommandKind::Pub,
            Command::Put { .. } => CommandKind::Put,
            Command::Del { .. } => CommandKind::Del,
            Command::Quit => CommandKind::Quit,
        }
    }
}

/// The command that the words after its name make, or what is wrong with
/// them. `value` is the command's JSON argument as it was read: `None` where
/// the word is no JSON, and of no account where the command has no such
/// argument or the line ends before it.
///
/// A JSON argument that is no JSON is reported first, then a surplus word,
/// then a missing argument.
pub open spec fn bound(kind: CommandKind, args: Seq<Seq<char>>, value: Option<Seq<char>>) -> Result<
    CommandView,
    ReplErrorView,
> {
    let schema = kind.spec_arguments();
    if kind.json_place() is Some && kind.json_place()->0 < args.len() && value is None {
        Err(
            ReplErrorView::BadArguments {
                command: kind,
                argument: schema[kind.json_place()->0].0,
                fault: ArgFault::Invalid,
            },
        )
    } else if args.len() > schema.len() {
        Err(
            ReplErrorView::BadArguments {
                command: kind,
                argument: args[schema.len() as int],
                fault: ArgFault::Unexpected,
            },
        )
    } else if args.len() < schema.len() {
        Err(
            ReplErrorView::BadArguments {
                command: kind,
                argument: schema[args.len() as int].0,
                fault: ArgFault::Missing,
            },
        )
    } else {
        Ok(
            match kind {
                CommandKind::Hash => CommandView::Hash,
                CommandKind::Peers => CommandView::Peers,
                CommandKind::Dump => CommandView::Dump,
                CommandKind::Pub => CommandView::Pub { value: value->0 },
                CommandKind::Put => CommandView::Put {
                    topic: args[0],
                    uuid: args[1],
                    value: value->0,
                },
                CommandKind::Del => CommandView::Del { topic: args[0], uuid: args[1] },
                CommandKind::Quit => CommandView::Quit,
            },
        )
    }
}

/// The JSON argument of a command as it reads: the word at the command's
/// JSON place, where the line has one there and it is JSON.
pub open spec fn json_argument(kind: CommandKind, args: Seq<Seq<char>>) -> Option<Seq<char>> {
    match kind.json_place() {
        Some(i) => if i < args.len() && json_valid(args[i]) {
            Some(args[i])
        } else {
            None
        },
        None => None,
    }
}

/// What a line of input asks for: nothing where it has no word, else the
/// command that its first word names, with the other words as arguments.
pub open spec fn parsed(line: Seq<char>) -> Result<Option<CommandView>, ReplErrorView> {
    let ws = words(line);
    if ws.len() == 0 {
        Ok(None)
    } else {
        match named(ws[0]) {
            None => Err(ReplErrorView::UnknownCommand { word: ws[0] }),
            Some(kind) => match bound(kind, ws.skip(1), json_argument(kind, ws.skip(1))) {
                Ok(command) => Ok(Some(command)),
                Err(e) => Err(e),
            },
        }
    }
}

/// Makes a command of kind `kind` from the words `args` that follow its name.
/// `value` is what reading the command's JSON argument gave.
pub fn bind(kind: CommandKind, args: &Vec<String>, value: Option<JsonText>) -> (r: Result<
    Command,
    ReplError,
>)
    ensures
        result_view(r) == bound(kind, texts(args@), some_view(value)),
{
    let schema = kind.arguments();
    if let Some(at) = kind.json_slot() {
        if at < args.len() && value.is_none() {
            return Err(
                ReplError::BadArguments {
                    command: kind,
                    argument: schema[at].name.to_owned(),
                    fault: ArgFault::Invalid,
                },
            );
        }
    }
    if args.len() > schema.len() {
        return Err(
            ReplError::BadArguments {
                command: kind,
                argument: args[schema.len()].clone(),
                fault: ArgFault::Unexpected,
            },
        );
    }
    if args.len() < schema.len() {
        return Err(
            ReplError::BadArguments {
                command: kind,
                argument: schema[args.len()].name.to_owned(),
                fault: ArgFault::Missing,
            },
        );
    }
    Ok(
        match kind {
            CommandKind::Hash => Command::Hash,
            CommandKind::Peers => Command::Peers,
            CommandKind::Dump => Command::Dump,
            CommandKind::Pub => Command::Pub { value: value.unwrap() },
            CommandKind::Put => Command::Put {
                topic: args[0].clone(),
                uuid: args[1].clone(),
                value: value.unwrap(),
            },
            CommandKind::Del => Command::Del { topic: args[0].clone(), uuid: args[1].clone() },
            CommandKind::Quit => Command::Quit,
        },
    )
}

/// Reads a line of input: `Ok(None)` for a line without a word, the command
/// for a line that is one, and else what is wrong with the line.
pub fn parse_line(line: &str) -> (r: Result<Option<Command>, ReplError>)
    ensures
        maybe_view(r) == parsed(line@),
{
    let mut tokens = tokenize(line);
    if tokens.len() == 0 {
        return Ok(None);
    }
    let head = tokens.remove(0);
    let kind = match lookup(head.as_str()) {
        Some(kind) => kind,
        None => {
            return Err(ReplError::UnknownCommand { word: head });
        },
    };
    let value = match kind.json_slot() {
        Some(at) => if at < tokens.len() {
            JsonText::parse(tokens[at].as_str())
        } else {
            None
        },
        None => None,
    };
    match bind(kind, &tokens, value) {
        Ok(command) => Ok(Some(command)),
        Err(e) => Err(e),
    }
}

} // verus!
