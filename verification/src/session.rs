//! The session: one operator, one cache, one command at a time.
//!
//! A [`Session`] is driven from outside. Whoever drives it reads the
//! operator's input and performs the cache's operations; the session decides
//! what each input leads to. It is fed one [`Input`] at a time and answers
//! each with a [`Reaction`]: an operation to ask the cache for, text to show,
//! a new prompt, or nothing at all.

use crate::cache::{Reply, ReplyView, Request, RequestView};
use crate::command::{parse_line, parsed, Command, CommandView};
use crate::error::{ArgFault, CliError, CliErrorView, ReplError, ReplErrorView};
use crate::handler::{complete, completed, start, started, Started, StartedView};
use crate::router::{route, routed};
use crate::table::{lemma_named_finds, named, CommandKind};
use crate::views::{maybe_view, some_view};
use crate::words::words;
use vstd::prelude::*;

verus! {

/// Where a session stands.
#[derive(Clone, Copy, PartialEq, Eq, Debug, Structural)]
pub enum Phase {
    /// Running, and waiting for the operator's next line.
    Idle,
    /// Running, with the handler of a `command` waiting for the cache.
    /// `interrupted` tells that an interrupt came in the meantime.
    Busy { command: CommandKind, interrupted: bool },
    /// Ended, with success.
    Terminated,
}

/// What reaches a session from outside.
#[derive(PartialEq, Eq, Debug)]
pub enum Input {
    /// The operator entered a line.
    Line(String),
    /// The cache answered the operation it was last asked for.
    Reply(Reply),
    /// The operator asked to stop.
    Interrupt,
}

/// An [`Input`] as a mathematical value.
pub enum InputView {
    Line(Seq<char>),
    Reply(ReplyView),
    Interrupt,
}

impl View for Input {
    type V = InputView;

    open spec fn view(&self) -> InputView {
        match self {
            Input::Line(line) => InputView::Line(line@),
            Input::Reply(reply) => InputView::Reply(reply@),
            Input::Interrupt => InputView::Interrupt,
        }
    }
}

/// What a session asks of whoever drives it, in answer to one input.
#[derive(PartialEq, Eq, Debug)]
pub struct Reaction {
    /// The operation to ask the cache for; its reply is the next input.
    pub call: Option<Request>,
    /// A text for the operator's output stream.
    pub output: Option<String>,
    /// A text for the operator's error stream.
    pub error: Option<String>,
    /// The prompt to show from now on.
    pub prompt: Option<String>,
}

/// A [`Reaction`] as a mathematical value.
pub struct ReactionView {
    pub call: Option<RequestView>,
    pub output: Option<Seq<char>>,
    pub error: Option<Seq<char>>,
    pub prompt: Option<Seq<char>>,
}

impl View for Reaction {
    type V = ReactionView;

    open spec fn view(&self) -> ReactionView {
        ReactionView {
            call: some_view(self.call),
            output: some_view(self.output),
            error: some_view(self.error),
            prompt: some_view(self.prompt),
        }
    }
}

/// The reaction that asks for nothing.
pub open spec fn silent() -> ReactionView {
    ReactionView { call: None, output: None, error: None, prompt: None }
}

/// What a line that was read leads to, in a session that waits for one: an
/// empty line to nothing, a line that cannot be read to its error, a command
/// to its handler, and the handler either to its result or to one operation
/// of the cache. In any other phase the line is dropped.
pub open spec fn accepted(phase: Phase, line: Result<Option<CommandView>, ReplErrorView>) -> (
    Phase,
    ReactionView,
) {
    if phase != Phase::Idle {
        (phase, silent())
    } else {
        match line {
            Ok(None) => (Phase::Idle, silent()),
            Err(e) => routed(Err(CliErrorView::Repl(e)), false),
            Ok(Some(command)) => match started(command) {
                StartedView::Finished(result) => routed(result, false),
                StartedView::Awaiting(request) => (
                    Phase::Busy { command: command.kind(), interrupted: false },
                    ReactionView { call: Some(request), output: None, error: None, prompt: None },
                ),
            },
        }
    }
}

/// What one input leads to: the next phase and the reaction.
pub open spec fn step(phase: Phase, input: InputView) -> (Phase, ReactionView) {
    match (phase, input) {
        (_, InputView::Line(line)) => accepted(phase, parsed(line)),
        (Phase::Idle, InputView::Interrupt) => (Phase::Terminated, silent()),
        (Phase::Busy { command, .. }, InputView::Interrupt) => (
            Phase::Busy { command, interrupted: true },
            silent(),
        ),
        (Phase::Busy { command, interrupted }, InputView::Reply(reply)) => routed(
            completed(command, reply),
            interrupted,
        ),
        _ => (phase, silent()),
    }
}

/// A console session.
#[derive(Debug)]
pub struct Session {
    phase: Phase,
}

impl View for Session {
    type V = Phase;

    closed spec fn view(&self) -> Phase {
        self.phase
    }
}

impl Session {
    /// A session that waits for its first line.
    pub fn new() -> (r: Session)
        ensures
            r@ == Phase::Idle,
    {
        Session { phase: Phase::Idle }
    }

    /// Where the session stands.
    pub fn phase(&self) -> (r: Phase)
        ensures
            r == self@,
    {
        self.phase
    }

    /// Whether the session goes on.
    pub fn is_running(&self) -> (r: bool)
        ensures
            r == (self@ != Phase::Terminated),
    {
        match self.phase {
            Phase::Terminated => false,
            _ => true,
        }
    }

    /// The status to leave the process with: none while the session runs,
    /// and success once it has ended, however it ended.
    pub fn exit_code(&self) -> (r: Option<i32>)
        ensures
            r == (if self@ == Phase::Terminated {
                Some(0i32)
            } else {
                None
            }),
    {
        match self.phase {
            Phase::Terminated => Some(0),
            _ => None,
        }
    }

    /// Takes a line that was read already.
    pub fn accept(&mut self, line: Result<Option<Command>, ReplError>) -> (r: Reaction)
        ensures
            final(self)@ == accepted(old(self)@, maybe_view(line)).0,
            r@ == accepted(old(self)@, maybe_view(line)).1,
    {
        match self.phase {
            Phase::Idle => {},
            _ => {
                return Reaction { call: None, output: None, error: None, prompt: None };
            },
        }
        match line {
            Ok(None) => Reaction { call: None, output: None, error: None, prompt: None },
            Err(e) => {
                let (next, reaction) = route(Err(CliError::Repl(e)), false);
                self.phase = next;
                reaction
            },
            Ok(Some(command)) => {
                let kind = command.kind();
                match start(command) {
                    Started::Finished(result) => {
                        let (next, reaction) = route(result, false);
                        self.phase = next;
                        reaction
                    },
                    Started::Awaiting(request) => {
                        self.phase = Phase::Busy { command: kind, interrupted: false };
                        Reaction { call: Some(request), output: None, error: None, prompt: None }
                    },
                }
            },
        }
    }

    /// Takes one input and says what to do about it.
    pub fn feed(&mut self, input: Input) -> (r: Reaction)
        ensures
            final(self)@ == step(old(self)@, input@).0,
            r@ == step(old(self)@, input@).1,
    {
        match input {
            Input::Line(line) => {
                match self.phase {
                    Phase::Idle => {
                        let read = parse_line(line.as_str());
                        self.accept(read)
                    },
                    _ => Reaction { call: None, output: None, error: None, prompt: None },
                }
            },
            Input::Interrupt => {
                match self.phase {
                    Phase::Idle => {
                        self.phase = Phase::Terminated;
                    },
                    Phase::Busy { command, .. } => {
                        self.phase = Phase::Busy { command, interrupted: true };
                    },
                    Phase::Terminated => {},
                }
                Reaction { call: None, output: None, error: None, prompt: None }
            },
            Input::Reply(reply) => {
                match self.phase {
                    Phase::Busy { command, interrupted } => {
                        let (next, reaction) = route(complete(command, reply), interrupted);
                        self.phase = next;
                        reaction
                    },
                    _ => Reaction { call: None, output: None, error: None, prompt: None },
                }
            },
        }
    }
}

/// The phase that a run of inputs leaves a session in.
pub open spec fn run(phase: Phase, inputs: Seq<InputView>) -> Phase
    decreases inputs.len(),
{
    if inputs.len() == 0 {
        phase
    } else {
        step(run(phase, inputs.drop_last()), inputs.last()).0
    }
}

/// How many operations a run of inputs has asked the cache for.
pub open spec fn calls_made(phase: Phase, inputs: Seq<InputView>) -> nat
    decreases inputs.len(),
{
    if inputs.len() == 0 {
        0
    } else {
        let before = inputs.drop_last();
        let asked: nat = if step(run(phase, before), inputs.last()).1.call is Some {
            1
        } else {
            0
        };
        calls_made(phase, before) + asked
    }
}

/// How many replies of the cache a run of inputs has taken: those that came
/// while a handler was waiting for one.
pub open spec fn replies_taken(phase: Phase, inputs: Seq<InputView>) -> nat
    decreases inputs.len(),
{
    if inputs.len() == 0 {
        0
    } else {
        let before = inputs.drop_last();
        let taken: nat = if run(phase, before) is Busy && inputs.last() is Reply {
            1
        } else {
            0
        };
        replies_taken(phase, before) + taken
    }
}

/// Commands run one at a time. A session asks the cache for an operation
/// only while it waits for a line, and then waits for the reply. While it
/// waits for the reply, nothing but the reply ends the wait: a line that
/// comes in is dropped without a trace, and an interrupt is only noted.
pub proof fn lemma_one_handler_per_step(phase: Phase, input: InputView)
    ensures
        step(phase, input).1.call is Some ==> phase == Phase::Idle && step(phase, input).0 is Busy,
        phase is Busy && input is Line ==> step(phase, input) == (phase, silent()),
        phase is Busy && !(input is Reply) ==> step(phase, input).0 is Busy && step(
            phase,
            input,
        ).1 == silent(),
{
}

/// Commands run one at a time, over a whole session. After any run of inputs
/// from a fresh session, the operations asked of the cache and not yet
/// answered are one if a handler is waiting, and none otherwise: never two.
pub proof fn lemma_one_handler_at_a_time(inputs: Seq<InputView>)
    ensures
        calls_made(Phase::Idle, inputs) == replies_taken(Phase::Idle, inputs) + (if run(
            Phase::Idle,
            inputs,
        ) is Busy {
            1nat
        } else {
            0nat
        }),
    decreases inputs.len(),
{
    if inputs.len() > 0 {
        lemma_one_handler_at_a_time(inputs.drop_last());
        lemma_one_handler_per_step(run(Phase::Idle, inputs.drop_last()), inputs.last());
    }
}

/// `quit` takes no argument. A line that is `quit` alone ends the session
/// and shows nothing.
pub proof fn lemma_quit_ends_session(line: Seq<char>)
    requires
        words(line) == seq![CommandKind::Quit.spec_name()],
    ensures
        step(Phase::Idle, InputView::Line(line)) == (Phase::Terminated, silent()),
{
    lemma_named_finds(CommandKind::Quit);
}

/// `quit` takes no argument. A line that goes on after `quit` does not end
/// the session: the first word after `quit` is reported as a surplus
/// argument, and the session waits for the next line.
pub proof fn lemma_quit_with_arguments_is_refused(line: Seq<char>)
    requires
        words(line).len() > 1,
        words(line)[0] == CommandKind::Quit.spec_name(),
    ensures
        step(Phase::Idle, InputView::Line(line)) == (
            Phase::Idle,
            ReactionView {
                call: None,
                output: None,
                error: Some(
                    ReplErrorView::BadArguments {
                        command: CommandKind::Quit,
                        argument: words(line)[1],
                        fault: ArgFault::Unexpected,
                    }.message(),
                ),
                prompt: None,
            },
        ),
{
    lemma_named_finds(CommandKind::Quit);
}

/// A line whose first word names no command changes nothing in any phase:
/// it never ends the session. A session that waits for a line reports the
/// word as an unknown command.
pub proof fn lemma_unknown_command_is_reported(phase: Phase, line: Seq<char>)
    requires
        words(line).len() > 0,
        named(words(line)[0]) is None,
    ensures
        step(phase, InputView::Line(line)).0 == phase,
        phase == Phase::Idle ==> step(phase, InputView::Line(line)).1 == (ReactionView {
            call: None,
            output: None,
            error: Some(ReplErrorView::UnknownCommand { word: words(line)[0] }.message()),
            prompt: None,
        }),
{
}

/// An interrupt that reaches a session waiting for a line ends it at once:
/// nothing is shown, no error is reported, and the session ends with success.
pub proof fn lemma_interrupt_ends_quietly()
    ensures
        step(Phase::Idle, InputView::Interrupt) == (Phase::Terminated, silent()),
{
}

/// An interrupt that comes while a handler waits for the cache does not cut
/// the handler short: the reply is still taken and its result shown, and
/// only then the session ends.
pub proof fn lemma_interrupt_waits_for_handler(command: CommandKind, reply: ReplyView)
    ensures
        step(Phase::Busy { command, interrupted: false }, InputView::Interrupt).0 == (Phase::Busy {
            command,
            interrupted: true,
        }),
        step(Phase::Busy { command, interrupted: true }, InputView::Reply(reply)).0
            == Phase::Terminated,
        step(Phase::Busy { command, interrupted: true }, InputView::Reply(reply)).1 == step(
            Phase::Busy { command, interrupted: false },
            InputView::Reply(reply),
        ).1,
{
}

/// Only `quit` and an interrupt end a session. A session that waits for a
/// line ends on an interrupt or on the command `quit`; one whose handler
/// waits for the cache ends on the reply, and only if an interrupt came
/// before it. Whatever else happens, a failure of the cache and a line that
/// cannot be read included, a running session goes on.
pub proof fn lemma_only_quit_or_interrupt_ends(phase: Phase, input: InputView)
    requires
        phase != Phase::Terminated,
        step(phase, input).0 == Phase::Terminated,
    ensures
        phase == Phase::Idle ==> input is Interrupt || (input is Line && parsed(input->Line_0)
            == Ok::<Option<CommandView>, ReplErrorView>(Some(CommandView::Quit))),
        phase is Busy ==> phase->interrupted && input is Reply,
{
}

/// A session that has ended stays ended, and asks for nothing more.
pub proof fn lemma_terminated_is_final(input: InputView)
    ensures
        step(Phase::Terminated, input) == (Phase::Terminated, silent()),
{
}

} // verus!
