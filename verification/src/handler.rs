//! The handlers of the commands: which cache operation a command asks for,
//! and what the operator is shown once the cache has answered.
//!
//! A handler returns `Ok(Some(text))` to show `text`, `Ok(None)` to show
//! nothing, and `Err` for a failure or for the request to quit.

use crate::cache::{peer_views, PeerRecord, PeerRecordView, Reply, ReplyView, Request, RequestView};
use crate::command::{Command, CommandView};
use crate::error::{CacheError, CliError, CliErrorView, ReplError, ReplErrorView};
use crate::table::CommandKind;
use crate::text::{decimal, hexadecimal, numeral, padded, push_padded};
use crate::views::maybe_view;
use vstd::prelude::*;
use vstd::string::StringExecFns;

verus! {

/// The first line of the peers table: the three column titles, the first
/// filled up to fifteen places, the second to seven, the third to five.
pub open spec fn peers_header() -> Seq<char> {
    padded("Peer"@, 15, ' ') + " "@ + padded("Hash"@, 7, ' ') + " "@ + padded("Timestamp"@, 5, ' ')
        + "\n"@
}

/// The line of one peer: its identifier filled up to fifteen places with
/// spaces, its hash in decimal filled up to seven places with `x`, and the
/// time it was last seen in decimal filled up to five places with spaces.
pub open spec fn peer_line(peer: PeerRecordView) -> Seq<char> {
    padded(peer.peer_id, 15, ' ') + " "@ + padded(numeral(peer.hash, 10), 7, 'x') + " "@ + padded(
        numeral(peer.last_seen, 10),
        5,
        ' ',
    ) + "\n"@
}

/// The lines of the peers, in the order of the list.
pub open spec fn peer_lines(peers: Seq<PeerRecordView>) -> Seq<char>
    decreases peers.len(),
{
    if peers.len() == 0 {
        Seq::empty()
    } else {
        peer_lines(peers.drop_last()) + peer_line(peers.last())
    }
}

/// The peers table: the header, then one line for each peer.
pub open spec fn peers_table(peers: Seq<PeerRecordView>) -> Seq<char> {
    peers_header() + peer_lines(peers)
}

/// What the `hash` command shows.
pub open spec fn hash_line(hash: nat) -> Seq<char> {
    "Current hash: "@ + numeral(hash, 16)
}

/// Where a command stands once its handler has begun.
#[derive(PartialEq, Eq, Debug)]
pub enum Started {
    /// The handler is done without the cache.
    Finished(Result<Option<String>, CliError>),
    /// The handler needs this operation of the cache before it can go on.
    Awaiting(Request),
}

/// [`Started`] as a mathematical value.
pub enum StartedView {
    Finished(Result<Option<Seq<char>>, CliErrorView>),
    Awaiting(RequestView),
}

impl View for Started {
    type V = StartedView;

    open spec fn view(&self) -> StartedView {
        match self {
            Started::Finished(result) => StartedView::Finished(maybe_view(*result)),
            Started::Awaiting(request) => StartedView::Awaiting(request@),
        }
    }
}

/// How a command begins. `quit` asks to end the session and `dump` is not
/// implemented; every other command asks the cache for exactly one operation,
/// with the command's own arguments.
pub open spec fn started(command: CommandView) -> StartedView {
    match command {
        CommandView::Hash => StartedView::Awaiting(RequestView::GetHash),
        CommandView::Peers => StartedView::Awaiting(RequestView::Peers),
        CommandView::Dump => StartedView::Finished(
            Err(CliErrorView::Repl(ReplErrorView::NotImplemented { command: CommandKind::Dump })),
        ),
        CommandView::Pub { value } => StartedView::Awaiting(RequestView::Send { value }),
        CommandView::Put { topic, uuid, value } => StartedView::Awaiting(
            RequestView::Put { topic, uuid, value },
        ),
        CommandView::Del { topic, uuid } => StartedView::Awaiting(RequestView::Del { topic, uuid }),
        CommandView::Quit => StartedView::Finished(Err(CliErrorView::Quit)),
    }
}

/// What is said of a reply that does not answer the operation asked for.
pub open spec fn unexpected_reply() -> Seq<char> {
    "Unexpected reply from the cache"@
}

/// How the handler of a command of kind `kind` ends on the cache's reply.
/// A failure of the cache is passed on. The hash is shown in hexadecimal,
/// the peers as a table; publishing, storing and removing show nothing.
///
/// Removing an entry that is not there is no case of its own: whether that
/// succeeds is the cache's to say, and the handler ends as the reply says.
pub open spec fn completed(kind: CommandKind, reply: ReplyView) -> Result<
    Option<Seq<char>>,
    CliErrorView,
> {
    match (kind, reply) {
        (_, ReplyView::Done(Err(failure))) => Err(CliErrorView::Cache(failure)),
        (CommandKind::Hash, ReplyView::Hash(hash)) => Ok(Some(hash_line(hash))),
        (CommandKind::Peers, ReplyView::Peers(peers)) => Ok(Some(peers_table(peers))),
        (CommandKind::Pub, ReplyView::Done(Ok(_))) => Ok(None),
        (CommandKind::Put, ReplyView::Done(Ok(_))) => Ok(None),
        (CommandKind::Del, ReplyView::Done(Ok(_))) => Ok(None),
        _ => Err(CliErrorView::Cache(unexpected_reply())),
    }
}

/// Renders the peers table.
pub fn print_peers(peers: &Vec<PeerRecord>) -> (r: String)
    ensures
        r@ == peers_table(peer_views(peers@)),
{
    let mut out = String::new();
    push_padded(&mut out, "Peer", 15, ' ');
    out.push(' ');
    push_padded(&mut out, "Hash", 7, ' ');
    out.push(' ');
    push_padded(&mut out, "Timestamp", 5, ' ');
    out.push('\n');
    proof {
        reveal_strlit(" ");
        reveal_strlit("\n");
    }
    let ghost all = peer_views(peers@);
    let mut i: usize = 0;
    while i < peers.len()
        invariant
            i <= peers@.len(),
            all == peer_views(peers@),
            out@ == peers_header() + peer_lines(all.take(i as int)),
        decreases peers@.len() - i,
    {
        let peer = &peers[i];
        push_padded(&mut out, peer.peer_id.as_str(), 15, ' ');
        out.push(' ');
        let hash = decimal(peer.hash as u128);
        push_padded(&mut out, hash.as_str(), 7, 'x');
        out.push(' ');
        let seen = decimal(peer.last_seen);
        push_padded(&mut out, seen.as_str(), 5, ' ');
        out.push('\n');
        proof {
            reveal_strlit(" ");
            reveal_strlit("\n");
            assert(" "@ =~= seq![' ']);
            assert("\n"@ =~= seq!['\n']);
            assert(all[i as int] == peer@);
            assert(all.take(i + 1).drop_last() =~= all.take(i as int));
        }
        i = i + 1;
    }
    assert(all.take(i as int) =~= all);
    out
}

/// Renders what the `hash` command shows.
pub fn print_hash(hash: u64) -> (r: String)
    ensures
        r@ == hash_line(hash as nat),
{
    let mut out = "Current hash: ".to_owned();
    let digits = hexadecimal(hash);
    out.append(digits.as_str());
    out
}

/// The handler of `dump`: the command is reserved and always fails.
pub fn print_dht() -> (r: Result<Option<String>, CliError>)
    ensures
        maybe_view(r) == Err::<Option<Seq<char>>, CliErrorView>(
            CliErrorView::Repl(ReplErrorView::NotImplemented { command: CommandKind::Dump }),
        ),
{
    Err(CliError::Repl(ReplError::NotImplemented { command: CommandKind::Dump }))
}

/// Begins the handler of `command`.
pub fn start(command: Command) -> (r: Started)
    ensures
        r@ == started(command@),
{
    match command {
        Command::Hash => Started::Awaiting(Request::GetHash),
        Command::Peers => Started::Awaiting(Request::Peers),
        Command::Dump => Started::Finished(print_dht()),
        Command::Pub { value } => Started::Awaiting(Request::Send { value }),
        Command::Put { topic, uuid, value } => Started::Awaiting(
            Request::Put { topic, uuid, value },
        ),
        Command::Del { topic, uuid } => Started::Awaiting(Request::Del { topic, uuid }),
        Command::Quit => Started::Finished(Err(CliError::Quit)),
    }
}

/// Ends the handler of a command of kind `kind` on the cache's reply.
pub fn complete(kind: CommandKind, reply: Reply) -> (r: Result<Option<String>, CliError>)
    ensures
        maybe_view(r) == completed(kind, reply@),
{
    match reply {
        Reply::Done(Err(failure)) => Err(CliError::Cache(failure)),
        Reply::Hash(hash) => match kind {
            CommandKind::Hash => Ok(Some(print_hash(hash))),
            _ => Err(CliError::Cache(wrong_reply())),
        },
        Reply::Peers(peers) => match kind {
            CommandKind::Peers => Ok(Some(print_peers(&peers))),
            _ => Err(CliError::Cache(wrong_reply())),
        },
        Reply::Done(Ok(_)) => match kind {
            CommandKind::Pub | CommandKind::Put | CommandKind::Del => Ok(None),
            _ => Err(CliError::Cache(wrong_reply())),
        },
    }
}

/// The failure that stands for a reply that does not answer the operation
/// asked for.
fn wrong_reply() -> (r: CacheError)
    ensures
        r@ == unexpected_reply(),
{
    CacheError { message: "Unexpected reply from the cache".to_owned() }
}

} // verus!
