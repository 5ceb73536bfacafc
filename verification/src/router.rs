//! The error router: what the result of a handler leads to.
//!
//! A session is either running or terminated. A result that is a success or
//! a failure leaves it running; only the request to quit, which travels as
//! an error, terminates it, and does so with success.

use crate::error::{CliError, CliErrorView};
use crate::prompt::{next_prompt, prompt_after, prompt_update, update_prompt};
use crate::session::{silent, Phase, Reaction, ReactionView};
use crate::views::maybe_view;
use vstd::prelude::*;

verus! {

/// Where a session rests once a handler has ended: it goes on, unless an
/// interrupt came while the handler ran.
pub open spec fn resting(interrupted: bool) -> Phase {
    if interrupted {
        Phase::Terminated
    } else {
        Phase::Idle
    }
}

/// What a handler's result comes to, with the request to quit told apart
/// from the failures.
#[derive(PartialEq, Eq, Debug)]
pub enum Outcome {
    /// The handler succeeded with a text to show.
    Output(String),
    /// The handler succeeded and has nothing to show.
    NoOutput,
    /// The handler failed; the text tells how.
    Failure(String),
    /// The handler asks to end the session.
    Terminate,
}

/// An [`Outcome`] as a mathematical value.
pub enum OutcomeView {
    Output(Seq<char>),
    NoOutput,
    Failure(Seq<char>),
    Terminate,
}

impl View for Outcome {
    type V = OutcomeView;

    open spec fn view(&self) -> OutcomeView {
        match self {
            Outcome::Output(text) => OutcomeView::Output(text@),
            Outcome::NoOutput => OutcomeView::NoOutput,
            Outcome::Failure(text) => OutcomeView::Failure(text@),
            Outcome::Terminate => OutcomeView::Terminate,
        }
    }
}

/// What a handler's result comes to. Only the request to quit asks to end
/// the session; every other error is a failure, told by its message.
pub open spec fn outcome_of(result: Result<Option<Seq<char>>, CliErrorView>) -> OutcomeView {
    match result {
        Ok(Some(text)) => OutcomeView::Output(text),
        Ok(None) => OutcomeView::NoOutput,
        Err(CliErrorView::Quit) => OutcomeView::Terminate,
        Err(failure) => OutcomeView::Failure(failure.message()),
    }
}

/// What a handler's result leads to. After a success the text, if there is
/// one, is shown and the prompt is looked up anew. A failure is told on the
/// error stream and the session goes on. The request to quit ends the session
/// and shows nothing.
pub open spec fn routed(result: Result<Option<Seq<char>>, CliErrorView>, interrupted: bool) -> (
    Phase,
    ReactionView,
) {
    match outcome_of(result) {
        OutcomeView::Output(text) => (
            resting(interrupted),
            ReactionView {
                call: None,
                output: Some(text),
                error: None,
                prompt: prompt_after(prompt_update()),
            },
        ),
        OutcomeView::NoOutput => (
            resting(interrupted),
            ReactionView {
                call: None,
                output: None,
                error: None,
                prompt: prompt_after(prompt_update()),
            },
        ),
        OutcomeView::Failure(message) => (
            resting(interrupted),
            ReactionView { call: None, output: None, error: Some(message), prompt: None },
        ),
        OutcomeView::Terminate => (Phase::Terminated, silent()),
    }
}

/// Tells what a handler's result comes to.
pub fn classify(result: Result<Option<String>, CliError>) -> (r: Outcome)
    ensures
        r@ == outcome_of(maybe_view(result)),
{
    match result {
        Ok(Some(text)) => Outcome::Output(text),
        Ok(None) => Outcome::NoOutput,
        Err(CliError::Quit) => Outcome::Terminate,
        Err(failure) => Outcome::Failure(failure.message()),
    }
}

/// Decides what a handler's result leads to.
pub fn route(result: Result<Option<String>, CliError>, interrupted: bool) -> (r: (Phase, Reaction))
    ensures
        r.0 == routed(maybe_view(result), interrupted).0,
        r.1@ == routed(maybe_view(result), interrupted).1,
{
    let rest = if interrupted {
        Phase::Terminated
    } else {
        Phase::Idle
    };
    match classify(result) {
        Outcome::Output(text) => (
            rest,
            Reaction {
                call: None,
                output: Some(text),
                error: None,
                prompt: next_prompt(update_prompt()),
            },
        ),
        Outcome::NoOutput => (
            rest,
            Reaction { call: None, output: None, error: None, prompt: next_prompt(update_prompt()) },
        ),
        Outcome::Failure(message) => (
            rest,
            Reaction { call: None, output: None, error: Some(message), prompt: None },
        ),
        Outcome::Terminate => (
            Phase::Terminated,
            Reaction { call: None, output: None, error: None, prompt: None },
        ),
    }
}

} // verus!
