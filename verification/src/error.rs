//! What can go wrong with a command, and how it is told to the operator.

use crate::table::CommandKind;
use vstd::prelude::*;
use vstd::string::StringExecFns;

verus! {

/// A failure that the cache reported: connectivity, validation or storage.
/// The console only shows it, so it keeps the cache's own words.
#[derive(PartialEq, Eq, Debug)]
pub struct CacheError {
    pub message: String,
}

impl View for CacheError {
    type V = Seq<char>;

    open spec fn view(&self) -> Seq<char> {
        self.message@
    }
}

/// What is wrong with an argument.
#[derive(Clone, Copy, PartialEq, Eq, Debug, Structural)]
pub enum ArgFault {
    /// The command needs the argument and the line ends before it.
    Missing,
    /// The line goes on after the command's last argument.
    Unexpected,
    /// The argument is there and is not what its kind asks for.
    Invalid,
}

/// Input that the console cannot act on.
#[derive(PartialEq, Eq, Debug)]
pub enum ReplError {
    /// The first word of the line names no command.
    UnknownCommand { word: String },
    /// The command is known and its arguments do not fit. `argument` is the
    /// name of the argument at fault; for a surplus word, which has no name,
    /// it is the word itself.
    BadArguments { command: CommandKind, argument: String, fault: ArgFault },
    /// The command is known and does nothing yet.
    NotImplemented { command: CommandKind },
}

/// A [`ReplError`] as a mathematical value.
pub enum ReplErrorView {
    UnknownCommand { word: Seq<char> },
    BadArguments { command: CommandKind, argument: Seq<char>, fault: ArgFault },
    NotImplemented { command: CommandKind },
}

impl View for ReplError {
    type V = ReplErrorView;

    open spec fn view(&self) -> ReplErrorView {
        match self {
            ReplError::UnknownCommand { word } => ReplErrorView::UnknownCommand { word: word@ },
            ReplError::BadArguments { command, argument, fault } => ReplErrorView::BadArguments {
                command: *command,
                argument: argument@,
                fault: *fault,
            },
            ReplError::NotImplemented { command } => ReplErrorView::NotImplemented {
                command: *command,
            },
        }
    }
}

/// How a command ends without a result. `Quit` is no failure: it is the
/// request to end the session, sent down the same path as the failures.
#[derive(PartialEq, Eq, Debug)]
pub enum CliError {
    Cache(CacheError),
    Repl(ReplError),
    Quit,
}

/// A [`CliError`] as a mathematical value.
pub enum CliErrorView {
    Cache(Seq<char>),
    Repl(ReplErrorView),
    Quit,
}

impl View for CliError {
    type V = CliErrorView;

    open spec fn view(&self) -> CliErrorView {
        match self {
            CliError::Cache(e) => CliErrorView::Cache(e@),
            CliError::Repl(e) => CliErrorView::Repl(e@),
            CliError::Quit => CliErrorView::Quit,
        }
    }
}

impl ArgFault {
    /// How a message about the fault begins.
    pub open spec fn spec_opening(self) -> Seq<char> {
        match self {
            ArgFault::Missing => "Error: Missing required argument '"@,
            ArgFault::Unexpected => "Error: Unexpected argument '"@,
            ArgFault::Invalid => "Error: Invalid value for argument '"@,
        }
    }

    /// How a message about the fault begins.
    pub fn opening(self) -> (r: &'static str)
        ensures
            r@ == self.spec_opening(),
    {
        match self {
            ArgFault::Missing => "Error: Missing required argument '",
            ArgFault::Unexpected => "Error: Unexpected argument '",
            ArgFault::Invalid => "Error: Invalid value for argument '",
        }
    }
}

impl ReplErrorView {
    /// The line shown to the operator.
    pub open spec fn message(self) -> Seq<char> {
        match self {
            ReplErrorView::UnknownCommand { word } => "Error: Unknown command '"@ + word + "'"@,
            ReplErrorView::BadArguments { command, argument, fault } => fault.spec_opening()
                + argument + "' for command '"@ + command.spec_name() + "'"@,
            ReplErrorView::NotImplemented { command } => "Error: Command '"@
                + command.spec_name() + "' is not implemented"@,
        }
    }
}

impl CliErrorView {
    /// The line shown to the operator.
    pub open spec fn message(self) -> Seq<char> {
        match self {
            CliErrorView::Cache(text) => text,
            CliErrorView::Repl(e) => e.message(),
            CliErrorView::Quit => "Quit requested"@,
        }
    }
}

impl ReplError {
    /// The line shown to the operator.
    pub fn message(&self) -> (r: String)
        ensures
            r@ == self@.message(),
    {
        let mut out = String::new();
        match self {
            ReplError::UnknownCommand { word } => {
                out.append("Error: Unknown command '");
                out.append(word.as_str());
                out.append("'");
            },
            ReplError::BadArguments { command, argument, fault } => {
                out.append(fault.opening());
                out.append(argument.as_str());
                out.append("' for command '");
                out.append(command.name());
                out.append("'");
            },
            ReplError::NotImplemented { command } => {
                out.append("Error: Command '");
                out.append(command.name());
                out.append("' is not implemented");
            },
        }
        out
    }
}

impl CliError {
    /// The line shown to the operator.
    pub fn message(&self) -> (r: String)
        ensures
            r@ == self@.message(),
    {
        match self {
            CliError::Cache(e) => e.message.clone(),
            CliError::Repl(e) => e.message(),
            CliError::Quit => "Quit requested".to_owned(),
        }
    }
}

} // verus!
