use devtools::toolbox::{Documentation, DocumentationStore, Flag, FlagProperies, OptNames};

fn names(main: &'static str, short: Option<&'static str>, aliases: &'static [&'static str]) -> OptNames {
    OptNames { main, short, aliases }
}

#[test]
fn default_store_is_empty() {
    let store = DocumentationStore::default();
    assert_eq!(store.item_docs, "");
    assert!(store.store.is_empty());
    assert_eq!(store.build(), "");
}

#[test]
fn add_keeps_sections_in_name_order_and_entries_in_insertion_order() {
    let mut store = DocumentationStore::default();
    store.add(Documentation { section: "flag", names: names("--b", None, &[]), description: "b" });
    store.add(Documentation { section: "argument", names: names("x", None, &[]), description: "x" });
    store.add(Documentation { section: "flag", names: names("--a", None, &[]), description: "a" });
    store.add(Documentation { section: "command", names: names("run", None, &[]), description: "r" });
    let sections: Vec<&str> = store.store.iter().map(|s| s.0).collect();
    assert_eq!(sections, vec!["argument", "command", "flag"]);
    let flags: Vec<&str> = store.store[2].1.iter().map(|e| e.0.main).collect();
    assert_eq!(flags, vec!["--b", "--a"]);
    assert_eq!(store.store[2].1[1].1, "a");
}

#[test]
fn build_aligns_names_and_lists_aliases() {
    let mut store = DocumentationStore { item_docs: "tool", store: Vec::new() };
    store.add(Documentation {
        section: "flag",
        names: names("--verbose", Some("-v"), &["--loud"]),
        description: "talk more",
    });
    store.add(Documentation { section: "flag", names: names("--help", None, &[]), description: "print help" });
    store.add(Documentation { section: "argument", names: names("file", None, &[]), description: "input" });
    let expected = String::new()
        + "tool\n"
        + "\n"
        + "\x1b[1;4marguments:\x1b[0m\n"
        + "  \x1b[1m    file\x1b[0m  input \n"
        + "\n"
        + "\x1b[1;4mflags:\x1b[0m\n"
        + "  \x1b[1m-v, --verbose\x1b[0m  talk more [aliases: --loud]\n"
        + "  \x1b[1m    --help   \x1b[0m  print help \n";
    assert_eq!(store.build(), expected);
}

#[test]
fn build_pads_short_names_to_the_longest() {
    let mut store = DocumentationStore { item_docs: "", store: Vec::new() };
    store.add(Documentation { section: "flag", names: names("--all", Some("-a"), &["--every", "--each"]), description: "all" });
    store.add(Documentation { section: "flag", names: names("--x", Some("-xx"), &[]), description: "x" });
    let expected = String::new()
        + "\n"
        + "\x1b[1;4mflags:\x1b[0m\n"
        + "  \x1b[1m-a,  --all\x1b[0m  all [aliases: --every, --each]\n"
        + "  \x1b[1m-xx, --x  \x1b[0m  x \n";
    assert_eq!(store.build(), expected);
}

#[test]
fn flag_properties_long_and_short() {
    let with_short = FlagProperies { long_name: "force".to_string(), short_name: Some('f'), description: None };
    assert_eq!(with_short.long_flag(), "--force");
    assert_eq!(with_short.short_flag(), Some("-f".to_string()));
    let without_short = FlagProperies { long_name: "dry-run".to_string(), short_name: None, description: None };
    assert_eq!(without_short.long_flag(), "--dry-run");
    assert_eq!(without_short.short_flag(), None);
}

#[test]
fn flags_from_tuples() {
    let p = (("quiet",),).full_properies();
    assert_eq!(p, FlagProperies { long_name: "quiet".to_string(), short_name: None, description: None });
    let p = (("quiet",), "say nothing").full_properies();
    assert_eq!(p.description, Some("say nothing".to_string()));
    assert_eq!(p.short_name, None);
    let p = (("quiet", 'q'),).full_properies();
    assert_eq!(p.short_name, Some('q'));
    assert_eq!(p.description, None);
    let p = (("quiet", 'q'), "say nothing").full_properies();
    assert_eq!(
        p,
        FlagProperies {
            long_name: "quiet".to_string(),
            short_name: Some('q'),
            description: Some("say nothing".to_string()),
        }
    );
    assert_eq!(p.long_flag(), "--quiet");
    assert_eq!(p.short_flag(), Some("-q".to_string()));
}
