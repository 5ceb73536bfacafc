use dht_console::table::{lookup, ArgKind, CommandKind};

#[test]
fn table_lists_every_command_once() {
    let all = CommandKind::all();
    assert_eq!(
        all,
        vec![
            CommandKind::Hash,
            CommandKind::Peers,
            CommandKind::Dump,
            CommandKind::Pub,
            CommandKind::Put,
            CommandKind::Del,
            CommandKind::Quit,
        ]
    );
}

#[test]
fn names_are_pairwise_distinct() {
    let all = CommandKind::all();
    for (i, a) in all.iter().enumerate() {
        for (j, b) in all.iter().enumerate() {
            if i != j {
                assert_ne!(a.name(), b.name());
            }
        }
    }
}

#[test]
fn command_names() {
    assert_eq!(CommandKind::Hash.name(), "hash");
    assert_eq!(CommandKind::Peers.name(), "peers");
    assert_eq!(CommandKind::Dump.name(), "dump");
    assert_eq!(CommandKind::Pub.name(), "pub");
    assert_eq!(CommandKind::Put.name(), "put");
    assert_eq!(CommandKind::Del.name(), "del");
    assert_eq!(CommandKind::Quit.name(), "quit");
}

#[test]
fn command_descriptions() {
    assert_eq!(CommandKind::Hash.description(), "Print the current cache hash");
    assert_eq!(CommandKind::Peers.description(), "Print the peers statistics");
    assert_eq!(CommandKind::Dump.description(), "Dump the current dht state");
    assert_eq!(
        CommandKind::Pub.description(),
        "Publish a volatile message, it should be a JSON object"
    );
    assert_eq!(
        CommandKind::Put.description(),
        "Publish a persistent entry, the value should be a JSON object"
    );
    assert_eq!(CommandKind::Del.description(), "Unpublish a persistent entry");
    assert_eq!(CommandKind::Quit.description(), "Quit the repl");
}

#[test]
fn lookup_finds_each_command_by_its_name() {
    for kind in CommandKind::all() {
        assert_eq!(lookup(kind.name()), Some(kind));
    }
}

#[test]
fn lookup_knows_no_other_word() {
    for word in ["frobnicate", "", "help", "Hash", "QUIT", "pu", "puts", "quit ", "delete"] {
        assert_eq!(lookup(word), None);
    }
}

#[test]
fn commands_without_arguments() {
    for kind in [CommandKind::Hash, CommandKind::Peers, CommandKind::Dump, CommandKind::Quit] {
        assert!(kind.arguments().is_empty());
        assert_eq!(kind.json_slot(), None);
    }
}

#[test]
fn pub_takes_one_json_value() {
    let args = CommandKind::Pub.arguments();
    assert_eq!(args.len(), 1);
    assert_eq!(args[0].name, "value");
    assert_eq!(args[0].kind, ArgKind::Json);
    assert_eq!(CommandKind::Pub.json_slot(), Some(0));
}

#[test]
fn put_takes_topic_uuid_and_json_value() {
    let args = CommandKind::Put.arguments();
    assert_eq!(args.len(), 3);
    assert_eq!(args[0].name, "topic");
    assert_eq!(args[0].kind, ArgKind::Text);
    assert_eq!(args[1].name, "uuid");
    assert_eq!(args[1].kind, ArgKind::Text);
    assert_eq!(args[2].name, "value");
    assert_eq!(args[2].kind, ArgKind::Json);
    assert_eq!(CommandKind::Put.json_slot(), Some(2));
}

#[test]
fn del_takes_topic_and_uuid() {
    let args = CommandKind::Del.arguments();
    assert_eq!(args.len(), 2);
    assert_eq!(args[0].name, "topic");
    assert_eq!(args[0].kind, ArgKind::Text);
    assert_eq!(args[1].name, "uuid");
    assert_eq!(args[1].kind, ArgKind::Text);
    assert_eq!(CommandKind::Del.json_slot(), None);
}

#[test]
fn entries_agree_with_the_commands() {
    for kind in CommandKind::all() {
        let entry = kind.entry();
        assert_eq!(entry.kind, kind);
        assert_eq!(entry.name, kind.name());
        assert_eq!(entry.description, kind.description());
        assert_eq!(entry.arguments.len(), kind.arguments().len());
    }
}
