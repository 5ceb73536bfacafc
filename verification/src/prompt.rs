//! The prompt, and how it is looked up after each command that succeeded.
//!
//! The look-up has no access to the cache and changes nothing. It cannot end
//! a session either: where it fails, the prompt falls back to the default.

use crate::error::{CliError, CliErrorView};
use crate::views::{maybe_view, some_view};
use vstd::prelude::*;

verus! {

/// The prompt of a session that has run no command yet, and the one to fall
/// back to.
pub open spec fn default_prompt() -> Seq<char> {
    "Sifis DHT REPL"@
}

/// What the prompt is looked up to be after a command: always the same
/// acknowledgement.
pub open spec fn prompt_update() -> Result<Option<Seq<char>>, CliErrorView> {
    Ok(Some("Ok"@))
}

/// The prompt to set after a look-up: the text that it gave, none where it
/// gave none, and the default prompt where it failed.
pub open spec fn prompt_after(update: Result<Option<Seq<char>>, CliErrorView>) -> Option<
    Seq<char>,
> {
    match update {
        Ok(text) => text,
        Err(_) => Some(default_prompt()),
    }
}

/// The prompt of a session that has run no command yet.
pub fn initial_prompt() -> (r: &'static str)
    ensures
        r@ == default_prompt(),
{
    "Sifis DHT REPL"
}

/// Looks up the prompt to show after a command.
pub fn update_prompt() -> (r: Result<Option<String>, CliError>)
    ensures
        maybe_view(r) == prompt_update(),
{
    Ok(Some("Ok".to_owned()))
}

/// The prompt to set after a look-up.
pub fn next_prompt(update: Result<Option<String>, CliError>) -> (r: Option<String>)
    ensures
        some_view(r) == prompt_after(maybe_view(update)),
{
    match update {
        Ok(text) => text,
        Err(_) => Some(initial_prompt().to_owned()),
    }
}

} // verus!
