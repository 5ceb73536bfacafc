//! The command table: every command the console knows, with its name, its
//! description and the arguments it takes.
//!
//! The table is a closed set of variants, so that every command has exactly one
//! entry and no name can be registered twice.

use crate::text::same_text;
use vstd::prelude::*;

verus! {

/// The commands of the console.
#[derive(Clone, Copy, PartialEq, Eq, Debug, Structural)]
pub enum CommandKind {
    /// Shows the cache's current hash.
    Hash,
    /// Lists the known peers.
    Peers,
    /// Reserved for a dump of the cache state.
    Dump,
    /// Publishes a volatile message.
    Pub,
    /// Stores a persistent entry.
    Put,
    /// Removes a persistent entry.
    Del,
    /// Ends the session. It takes no argument, and is refused with one.
    Quit,
}

/// What an argument must be.
#[derive(Clone, Copy, PartialEq, Eq, Debug, Structural)]
pub enum ArgKind {
    /// Any word.
    Text,
    /// A word that is one JSON document.
    Json,
}

/// One argument of a command: its name and what it must be. Every argument is
/// required.
#[derive(Clone, Copy, PartialEq, Eq, Debug)]
pub struct ArgSpec {
    pub name: &'static str,
    pub kind: ArgKind,
}

/// One entry of the command table.
#[derive(PartialEq, Eq, Debug)]
pub struct CommandSpec {
    pub kind: CommandKind,
    pub name: &'static str,
    pub description: &'static str,
    pub arguments: Vec<ArgSpec>,
}

impl CommandKind {
    /// The word that selects the command.
    pub open spec fn spec_name(self) -> Seq<char> {
        match self {
            CommandKind::Hash => "hash"@,
            CommandKind::Peers => "peers"@,
            CommandKind::Dump => "dump"@,
            CommandKind::Pub => "pub"@,
            CommandKind::Put => "put"@,
            CommandKind::Del => "del"@,
            CommandKind::Quit => "quit"@,
        }
    }

    /// The line that describes the command to the operator.
    pub open spec fn spec_description(self) -> Seq<char> {
        match self {
            CommandKind::Hash => "Print the current cache hash"@,
            CommandKind::Peers => "Print the peers statistics"@,
            CommandKind::Dump => "Dump the current dht state"@,
            CommandKind::Pub => "Publish a volatile message, it should be a JSON object"@,
            CommandKind::Put => "Publish a persistent entry, the value should be a JSON object"@,
            CommandKind::Del => "Unpublish a persistent entry"@,
            CommandKind::Quit => "Quit the repl"@,
        }
    }

    /// The arguments of the command, in the order in which they are given:
    /// each with its name and its kind.
    pub open spec fn spec_arguments(self) -> Seq<(Seq<char>, ArgKind)> {
        match self {
            CommandKind::Pub => seq![("value"@, ArgKind::Json)],
            CommandKind::Put => seq![
                ("topic"@, ArgKind::Text),
                ("uuid"@, ArgKind::Text),
                ("value"@, ArgKind::Json),
            ],
            CommandKind::Del => seq![("topic"@, ArgKind::Text), ("uuid"@, ArgKind::Text)],
            _ => seq![],
        }
    }

    /// How many arguments the command takes.
    pub open spec fn arity(self) -> nat {
        self.spec_arguments().len()
    }

    /// The place of the command's JSON argument, if it has one.
    pub open spec fn json_place(self) -> Option<int> {
        match self {
            CommandKind::Pub => Some(0),
            CommandKind::Put => Some(2),
            _ => None,
        }
    }

    /// The word that selects the command.
    pub fn name(self) -> (r: &'static str)
        ensures
            r@ == self.spec_name(),
    {
        match self {
            CommandKind::Hash => "hash",
            CommandKind::Peers => "peers",
            CommandKind::Dump => "dump",
            CommandKind::Pub => "pub",
            CommandKind::Put => "put",
            CommandKind::Del => "del",
            CommandKind::Quit => "quit",
        }
    }

    /// The place of the command's JSON argument, if it has one.
    pub fn json_slot(self) -> (r: Option<usize>)
        ensures
            match r {
                Some(i) => self.json_place() == Some(i as int),
                None => self.json_place() is None,
            },
    {
        match self {
            CommandKind::Pub => Some(0),
            CommandKind::Put => Some(2),
            _ => None,
        }
    }

    /// The line that describes the command to the operator.
    pub fn description(self) -> (r: &'static str)
        ensures
            r@ == self.spec_description(),
    {
        match self {
            CommandKind::Hash => "Print the current cache hash",
            CommandKind::Peers => "Print the peers statistics",
            CommandKind::Dump => "Dump the current dht state",
            CommandKind::Pub => "Publish a volatile message, it should be a JSON object",
            CommandKind::Put => "Publish a persistent entry, the value should be a JSON object",
            CommandKind::Del => "Unpublish a persistent entry",
            CommandKind::Quit => "Quit the repl",
        }
    }

    /// The arguments of the command, in order.
    pub fn arguments(self) -> (r: Vec<ArgSpec>)
        ensures
            arg_views(r@) == self.spec_arguments(),
    {
        let mut args: Vec<ArgSpec> = Vec::new();
        match self {
            CommandKind::Pub => {
                args.push(ArgSpec { name: "value", kind: ArgKind::Json });
            },
            CommandKind::Put => {
                args.push(ArgSpec { name: "topic", kind: ArgKind::Text });
                args.push(ArgSpec { name: "uuid", kind: ArgKind::Text });
                args.push(ArgSpec { name: "value", kind: ArgKind::Json });
            },
            CommandKind::Del => {
                args.push(ArgSpec { name: "topic", kind: ArgKind::Text });
                args.push(ArgSpec { name: "uuid", kind: ArgKind::Text });
            },
            _ => {},
        }
        args
    }
}

/// The arguments of a table entry as names and kinds.
pub open spec fn arg_views(args: Seq<ArgSpec>) -> Seq<(Seq<char>, ArgKind)> {
    Seq::new(args.len(), |i: int| (args[i].name@, args[i].kind))
}

/// The commands in the order of the table.
pub open spec fn all_kinds() -> Seq<CommandKind> {
    seq![
        CommandKind::Hash,
        CommandKind::Peers,
        CommandKind::Dump,
        CommandKind::Pub,
        CommandKind::Put,
        CommandKind::Del,
        CommandKind::Quit,
    ]
}

impl CommandKind {
    /// The commands in the order of the table.
    pub fn all() -> (r: Vec<CommandKind>)
        ensures
            r@ == all_kinds(),
    {
        let mut kinds: Vec<CommandKind> = Vec::new();
        kinds.push(CommandKind::Hash);
        kinds.push(CommandKind::Peers);
        kinds.push(CommandKind::Dump);
        kinds.push(CommandKind::Pub);
        kinds.push(CommandKind::Put);
        kinds.push(CommandKind::Del);
        kinds.push(CommandKind::Quit);
        kinds
    }

    /// The table entry of the command.
    pub fn entry(self) -> (r: CommandSpec)
        ensures
            r.kind == self,
            r.name@ == self.spec_name(),
            r.description@ == self.spec_description(),
            arg_views(r.arguments@) == self.spec_arguments(),
    {
        CommandSpec {
            kind: self,
            name: self.name(),
            description: self.description(),
            arguments: self.arguments(),
        }
    }
}

/// The command that `word` names, if it names one.
pub open spec fn named(word: Seq<char>) -> Option<CommandKind> {
    if exists|k: CommandKind| k.spec_name() == word {
        Some(choose|k: CommandKind| k.spec_name() == word)
    } else {
        None
    }
}

/// No two commands share a name.
pub proof fn lemma_names_distinct(a: CommandKind, b: CommandKind)
    ensures
        a.spec_name() == b.spec_name() ==> a == b,
{
    reveal_strlit("hash");
    reveal_strlit("peers");
    reveal_strlit("dump");
    reveal_strlit("pub");
    reveal_strlit("put");
    reveal_strlit("del");
    reveal_strlit("quit");
    if a.spec_name() == b.spec_name() {
        assert(a.spec_name()[2] == b.spec_name()[2]);
    }
}

/// A command's JSON place is the place of its one argument of kind JSON, and
/// a command without such a place has none.
pub proof fn lemma_json_place(k: CommandKind, i: int)
    requires
        0 <= i < k.arity(),
    ensures
        k.spec_arguments()[i].1 == ArgKind::Json <==> k.json_place() == Some(i),
{
}

/// A command's name names that command and no other.
pub proof fn lemma_named_finds(k: CommandKind)
    ensures
        named(k.spec_name()) == Some(k),
{
    let found = choose|c: CommandKind| c.spec_name() == k.spec_name();
    lemma_names_distinct(found, k);
}

/// No command stands in the table twice.
pub proof fn lemma_table_has_no_duplicates()
    ensures
        all_kinds().no_duplicates(),
{
}

/// Every command stands in the table.
pub proof fn lemma_table_complete(k: CommandKind)
    ensures
        all_kinds().contains(k),
{
    match k {
        CommandKind::Hash => assert(all_kinds()[0] == k),
        CommandKind::Peers => assert(all_kinds()[1] == k),
        CommandKind::Dump => assert(all_kinds()[2] == k),
        CommandKind::Pub => assert(all_kinds()[3] == k),
        CommandKind::Put => assert(all_kinds()[4] == k),
        CommandKind::Del => assert(all_kinds()[5] == k),
        CommandKind::Quit => assert(all_kinds()[6] == k),
    }
}

/// Looks `word` up in the command table.
pub fn lookup(word: &str) -> (r: Option<CommandKind>)
    ensures
        r == named(word@),
{
    let kinds = CommandKind::all();
    let mut i: usize = 0;
    while i < kinds.len()
        invariant
            i <= kinds@.len(),
            kinds@ == all_kinds(),
            forall|j: int| 0 <= j < i ==> (#[trigger] kinds@[j]).spec_name() != word@,
        decreases kinds@.len() - i,
    {
        let kind = kinds[i];
        if same_text(kind.name(), word) {
            proof {
                lemma_named_finds(kind);
            }
            return Some(kind);
        }
        i = i + 1;
    }
    proof {
        assert forall|k: CommandKind| k.spec_name() != word@ by {
            lemma_table_complete(k);
            let j = choose|j: int| 0 <= j < all_kinds().len() && all_kinds()[j] == k;
        }
    }
    None
}

} // verus!
