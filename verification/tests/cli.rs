use devtools::cli::{
    current_command, Arg, matches_names, next_matches, subcommand, AppPath, CliError, Documentation,
    DocumentationStore, EmptyTail, FinalOpt, FlagHelp, Names, Opt, ParseOutcome, ParsingContext, Sequence,
    TailArgs,
};
use devtools::installer::{
    check_executable, valid_executable_name, Comment, DownloadLink, Executable, ExecutableName,
};
use std::path::PathBuf;

fn docs(main: &'static str) -> Documentation {
    Documentation { names: Names::only_main(main), description: "test program" }
}

fn context(args: &[&str]) -> ParsingContext {
    ParsingContext::from_args(args.iter().map(|a| Arg::Unicode(a.to_string())).collect(), docs("prog"))
}

#[test]
fn only_main_has_no_other_names() {
    let n = Names::only_main("run");
    assert_eq!(n.main, "run");
    assert_eq!(n.short, None);
    assert!(n.aliases.is_empty());
}

#[test]
fn names_match_main_short_and_aliases() {
    let n = Names { main: "--verbose", short: Some("-v"), aliases: &["--loud", "--noisy"] };
    assert!(matches_names(&n, "--verbose"));
    assert!(matches_names(&n, "-v"));
    assert!(matches_names(&n, "--noisy"));
    assert!(!matches_names(&n, "--quiet"));
    assert!(!matches_names(&n, "-verbose"));
}

#[test]
fn next_matches_looks_at_the_cursor() {
    let mut cx = context(&["a", "--help"]);
    let n = Names::only_main("--help");
    assert!(!next_matches(&cx, &n));
    cx.cursor = 1;
    assert!(next_matches(&cx, &n));
    cx.cursor = 2;
    assert!(!next_matches(&cx, &n));
}

#[test]
fn next_matches_skips_arguments_that_are_not_unicode() {
    let cx = ParsingContext::from_args(vec![Arg::NotUnicode("\u{FFFD}".to_string())], docs("prog"));
    assert!(!next_matches(&cx, &Names::only_main("--help")));
}

#[test]
fn store_new_and_add() {
    let mut store = DocumentationStore::new(docs("prog"));
    assert!(store.store.is_empty());
    store.add("flag", docs("--b"));
    store.add("argument", docs("x"));
    store.add("flag", docs("--a"));
    assert_eq!(store.store.len(), 2);
    assert_eq!(store.store[0].0, "argument");
    assert_eq!(store.store[1].0, "flag");
    assert_eq!(store.store[1].1[0].names.main, "--b");
    assert_eq!(store.store[1].1[1].names.main, "--a");
    assert_eq!(store.item_docs.names.main, "prog");
}

#[test]
fn help_flag_by_long_and_short_name() {
    for arg in ["--help", "-h"] {
        let mut cx = context(&[arg]);
        let mut this: Option<FlagHelp> = None;
        assert!(matches!(FlagHelp::try_parse_self(&mut this, &mut cx), Ok(true)));
        assert_eq!(cx.cursor, 1);
        assert!(matches!(this, Some(FlagHelp(true))));
    }
}

#[test]
fn help_flag_is_taken_once() {
    let mut cx = context(&["--help", "--help"]);
    let mut this: Option<FlagHelp> = None;
    assert!(matches!(FlagHelp::try_parse_self(&mut this, &mut cx), Ok(true)));
    assert!(matches!(FlagHelp::try_parse_self(&mut this, &mut cx), Ok(false)));
    assert_eq!(cx.cursor, 1);
}

#[test]
fn help_flag_defaults_to_off() {
    let mut cx = context(&["other"]);
    let mut this: Option<FlagHelp> = None;
    assert!(matches!(FlagHelp::try_parse_self(&mut this, &mut cx), Ok(false)));
    assert_eq!(cx.cursor, 0);
    assert!(this.is_none());
    assert!(matches!(FlagHelp::finalize(this), Ok(FlagHelp(false))));
}

#[test]
fn help_flag_documentation() {
    let mut store = DocumentationStore::new(docs("prog"));
    FlagHelp::add_documentation(&mut store);
    assert_eq!(store.store.len(), 1);
    assert_eq!(store.store[0].0, "flag");
    let entry = store.store[0].1[0];
    assert_eq!(entry.names.main, "--help");
    assert_eq!(entry.names.short, Some("-h"));
    assert_eq!(entry.description, "print help");
}

#[test]
fn empty_tail_accepts_only_when_all_is_taken() {
    let mut cx = context(&["a", "b"]);
    cx.cursor = 2;
    assert!(EmptyTail::try_parse_self(cx).is_ok());
    let mut cx = ParsingContext::from_args(
        vec![Arg::Unicode("a".to_string()), Arg::NotUnicode("b\u{FFFD}".to_string()), Arg::Unicode("c".to_string())],
        docs("p"),
    );
    cx.cursor = 1;
    match EmptyTail::try_parse_self(cx) {
        Err(CliError::UnmatchedArgs(rest)) => assert_eq!(rest, vec![Arg::NotUnicode("b\u{FFFD}".to_string()), Arg::Unicode("c".to_string())]),
        _ => panic!("expected unmatched arguments"),
    }
}

#[test]
fn tail_args_hands_the_context_over() {
    let mut cx = context(&["a", "b"]);
    cx.cursor = 1;
    let TailArgs(back) = TailArgs::try_parse_self(cx).expect("always accepted");
    assert_eq!(back.cursor, 1);
    assert_eq!(back.args.len(), 2);
}

#[test]
fn subcommand_matched_runs_the_callback() {
    let cx = context(&["install", "x"]);
    let mut seen: Option<(usize, &'static str)> = None;
    let rest = subcommand(Some(cx), docs("install"), |inner| {
        seen = Some((inner.cursor, inner.documentation.item_docs.names.main));
    });
    assert!(rest.is_none());
    assert_eq!(seen, Some((1, "install")));
}

#[test]
fn subcommand_not_matched_is_documented() {
    let cx = context(&["remove"]);
    let mut called = false;
    let rest = subcommand(Some(cx), docs("install"), |_inner| {
        called = true;
    });
    assert!(!called);
    let rest = rest.expect("the context comes back");
    assert_eq!(rest.cursor, 0);
    assert_eq!(rest.documentation.store.len(), 1);
    assert_eq!(rest.documentation.store[0].0, "subcommand");
    assert_eq!(rest.documentation.store[0].1[0].names.main, "install");
    assert!(subcommand(None, docs("install"), |_inner| {}).is_none());
}

#[test]
fn current_command_runs_only_with_a_context() {
    let mut runs = 0;
    current_command(Some(context(&[])), |_cx| runs += 1);
    current_command(None, |_cx| runs += 1);
    assert_eq!(runs, 1);
}

#[test]
fn executable_name_characters() {
    assert!(valid_executable_name("my-tool_2"));
    assert!(!valid_executable_name("my tool"));
    assert!(!valid_executable_name("tool.exe"));
    assert!(valid_executable_name(""));
}

#[test]
fn executable_name_option() {
    let mut cx = context(&["good_name"]);
    let mut this: Option<ExecutableName> = None;
    assert!(matches!(ExecutableName::try_parse_self(&mut this, &mut cx), Ok(true)));
    assert_eq!(this.as_ref().map(|n| n.0.as_str()), Some("good_name"));
    assert_eq!(cx.cursor, 1);

    let mut cx = context(&["bad/name"]);
    let mut this: Option<ExecutableName> = None;
    assert!(matches!(ExecutableName::try_parse_self(&mut this, &mut cx), Err(CliError::Invalid(_))));
    assert_eq!(cx.cursor, 0);
    assert!(matches!(ExecutableName::finalize(None), Err(CliError::Missing("You should provide executable name"))));
}

#[test]
fn download_link_and_comment_options() {
    let mut cx = context(&["https://example.org/tool", "built by hand"]);
    let mut link: Option<DownloadLink> = None;
    let mut comment: Option<Comment> = None;
    assert!(matches!(DownloadLink::try_parse_self(&mut link, &mut cx), Ok(true)));
    assert!(matches!(Comment::try_parse_self(&mut comment, &mut cx), Ok(true)));
    assert_eq!(link.map(|l| l.0), Some("https://example.org/tool".to_string()));
    assert_eq!(comment.and_then(|c| c.0), Some("built by hand".to_string()));
    assert!(matches!(DownloadLink::finalize(None), Err(CliError::Missing("You should provide download link"))));
    assert!(matches!(Comment::finalize(None), Ok(Comment(None))));
}

#[test]
fn executable_decision() {
    let missing = check_executable(false, false, None);
    assert!(matches!(missing, Err(CliError::Invalid("Executable should exist."))));
    let directory = check_executable(true, false, Some(PathBuf::from("/tmp")));
    assert!(matches!(directory, Err(CliError::Invalid("Executable should be file."))));
    let unresolved = check_executable(true, true, None);
    assert!(matches!(unresolved, Err(CliError::Invalid("Executable path could not be resolved."))));
    let ok = check_executable(true, true, Some(PathBuf::from("/usr/bin/tool")));
    assert_eq!(ok.ok(), Some(PathBuf::from("/usr/bin/tool")));
}

#[test]
fn executable_option_checks_the_file_system() {
    // the running test program is a file
    let mut cx = context(&["/proc/self/exe"]);
    let mut this: Option<Executable> = None;
    assert!(matches!(Executable::try_parse_self(&mut this, &mut cx), Ok(true)));
    assert_eq!(cx.cursor, 1);
    let path = this.expect("taken").0;
    assert!(path.is_absolute());
    assert!(!path.starts_with("/proc"));

    let mut cx = context(&["/"]);
    let mut this: Option<Executable> = None;
    assert!(matches!(
        Executable::try_parse_self(&mut this, &mut cx),
        Err(CliError::Invalid("Executable should be file."))
    ));

    let mut cx = context(&["/no/such/file/here"]);
    let mut this: Option<Executable> = None;
    assert!(matches!(
        Executable::try_parse_self(&mut this, &mut cx),
        Err(CliError::Invalid("Executable should exist."))
    ));
    assert_eq!(cx.cursor, 0);
}

#[test]
fn sequence_takes_all_or_nothing() {
    type Four = Sequence<(ExecutableName, DownloadLink, Comment, FlagHelp)>;
    let mut cx = context(&["tool", "https://x", "note", "--help"]);
    let mut this: Option<Four> = None;
    assert!(matches!(Four::try_parse_self(&mut this, &mut cx), Ok(true)));
    assert_eq!(cx.cursor, 4);
    let Sequence((name, link, comment, help)) = this.expect("taken");
    assert_eq!(name.0, "tool");
    assert_eq!(link.0, "https://x");
    assert_eq!(comment.0, Some("note".to_string()));
    assert!(help.0);

    let mut cx = context(&["tool", "https://x", "note"]);
    let mut this: Option<Four> = None;
    assert!(matches!(Four::try_parse_self(&mut this, &mut cx), Ok(false)));
    assert_eq!(cx.cursor, 0);
    assert!(this.is_none());
}

#[test]
fn sequence_finalize_uses_defaults() {
    type Flags = Sequence<(FlagHelp, FlagHelp, Comment, FlagHelp)>;
    let r = Flags::finalize(None);
    match r {
        Ok(Sequence((a, b, c, d))) => {
            assert!(!a.0 && !b.0 && !d.0);
            assert!(c.0.is_none());
        },
        Err(_) => panic!("defaults exist"),
    }
    type Needs = Sequence<(ExecutableName, FlagHelp, FlagHelp, FlagHelp)>;
    assert!(matches!(Needs::finalize(None), Err(CliError::Missing(_))));
}

#[test]
fn app_path_takes_the_first_argument() {
    let mut cx = context(&["/bin/tool", "x"]);
    let mut this: Option<AppPath> = None;
    assert!(matches!(AppPath::try_parse_self(&mut this, &mut cx), Ok(true)));
    assert_eq!(this.expect("taken").0, Arg::Unicode("/bin/tool".to_string()));
    assert_eq!(cx.cursor, 1);
    let mut again: Option<AppPath> = None;
    assert!(matches!(AppPath::try_parse_self(&mut again, &mut cx), Err(CliError::Invalid("App Path should go first"))));
    assert!(matches!(AppPath::finalize(None), Err(CliError::Missing("First argument should be App Path"))));
}

#[test]
fn parse_runs_the_callback_with_the_values() {
    let cx = context(&["prog", "-h"]);
    let mut got: Option<(Arg, bool)> = None;
    let r = cx.parse(|path: AppPath, help: FlagHelp, _tail: EmptyTail| got = Some((path.0, help.0)), false);
    assert!(matches!(r, Ok(ParseOutcome::Done)));
    assert_eq!(got, Some((Arg::Unicode("prog".to_string()), true)));
}

#[test]
fn parse_stops_at_a_help_flag() {
    let cx = context(&["--help", "tool"]);
    let mut called = false;
    let r = cx.parse(|_name: ExecutableName, _tail: EmptyTail| called = true, true);
    assert!(!called);
    match r {
        Ok(ParseOutcome::Help(docs)) => {
            let sections: Vec<&str> = docs.store.iter().map(|s| s.0).collect();
            assert_eq!(sections, vec!["argument", "flag"]);
        },
        _ => panic!("help was asked for"),
    }
}

#[test]
fn parse_reports_what_is_left_over() {
    let cx = context(&["tool", "extra"]);
    let r = cx.parse(|_name: ExecutableName, _tail: EmptyTail| {}, true);
    match r {
        Err(CliError::UnmatchedArgs(rest)) => assert_eq!(rest, vec![Arg::Unicode("extra".to_string())]),
        _ => panic!("one argument is left over"),
    }
}

#[test]
fn parse_reports_a_missing_value() {
    let cx = context(&[]);
    let r = cx.parse(|_name: ExecutableName, _tail: EmptyTail| {}, false);
    assert!(matches!(r, Err(CliError::Missing("You should provide executable name"))));
}

#[test]
fn parse_takes_options_in_any_order() {
    let cx = context(&["name_1", "--help"]);
    let mut got = None;
    let r = cx.parse(
        |help: FlagHelp, name: ExecutableName, _tail: EmptyTail| {
            got = Some((name.0, help.0));
        },
        false,
    );
    assert!(matches!(r, Ok(ParseOutcome::Done)));
    assert_eq!(got, Some(("name_1".to_string(), true)));
}

#[test]
fn unmatched_args_message_lists_what_is_left() {
    let mut cx = context(&["prog", "--x", "y"]);
    cx.cursor = 1;
    match EmptyTail::try_parse_self(cx) {
        Err(e) => assert_eq!(e.message(), "unmatched args: '--x y'"),
        Ok(_) => panic!("arguments are left over"),
    }
    let mut cx = context(&["prog", "--x", "y"]);
    cx.cursor = 3;
    assert!(EmptyTail::try_parse_self(cx).is_ok());
}

#[test]
fn unmatched_args_message_shows_non_unicode_arguments() {
    let e = CliError::UnmatchedArgs(vec![Arg::NotUnicode("a\u{FFFD}b".to_string()), Arg::Unicode("z".to_string())]);
    assert_eq!(e.message(), "unmatched args: 'a\u{FFFD}b z'");
    assert_eq!(CliError::UnmatchedArgs(vec![]).message(), "unmatched args: ''");
}

#[test]
fn other_error_messages_are_their_own() {
    assert_eq!(CliError::Missing("You should provide executable name").message(), "You should provide executable name");
    assert_eq!(CliError::Invalid("App Path should go first").message(), "App Path should go first");
}

#[test]
fn invalid_executable_name_message() {
    let mut cx = context(&["bad name"]);
    let mut this: Option<ExecutableName> = None;
    match ExecutableName::try_parse_self(&mut this, &mut cx) {
        Err(CliError::Invalid(m)) => {
            assert_eq!(m, "Name could contain alphanumeric characters as well as '_' and '-'.")
        },
        _ => panic!("the name is not acceptable"),
    }
    assert!(this.is_none());
}

#[test]
fn parse_reports_an_invalid_option() {
    let cx = context(&["bad name"]);
    let mut called = false;
    let r = cx.parse(|_name: ExecutableName, _tail: EmptyTail| called = true, false);
    assert!(!called);
    assert!(matches!(
        r,
        Err(CliError::Invalid("Name could contain alphanumeric characters as well as '_' and '-'."))
    ));
}

#[test]
fn parse_with_three_options() {
    let cx = context(&["prog", "tool", "-h"]);
    let mut got = None;
    let r = cx.parse(
        |path: AppPath, name: ExecutableName, help: FlagHelp, _tail: EmptyTail| {
            got = Some((path.0, name.0, help.0));
        },
        false,
    );
    assert!(matches!(r, Ok(ParseOutcome::Done)));
    assert_eq!(got, Some((Arg::Unicode("prog".to_string()), "tool".to_string(), true)));
}

#[test]
fn sequence_finalize_reports_the_first_missing_value() {
    type Needs = Sequence<(FlagHelp, ExecutableName, AppPath, FlagHelp)>;
    assert!(matches!(Needs::finalize(None), Err(CliError::Missing("You should provide executable name"))));
}

#[test]
fn parse_with_five_options() {
    let cx = context(&["prog", "tool", "https://example.org/tool", "note", "-h"]);
    let mut got = None;
    let r = cx.parse(
        |path: AppPath, name: ExecutableName, link: DownloadLink, comment: Comment, help: FlagHelp, _tail: EmptyTail| {
            got = Some((path.0, name.0, link.0, comment.0, help.0));
        },
        false,
    );
    assert!(matches!(r, Ok(ParseOutcome::Done)));
    assert_eq!(
        got,
        Some((
            Arg::Unicode("prog".to_string()),
            "tool".to_string(),
            "https://example.org/tool".to_string(),
            Some("note".to_string()),
            true
        ))
    );
}

#[test]
fn options_make_no_progress_past_the_end() {
    let mut cx = context(&["a"]);
    cx.cursor = 5;
    let mut link: Option<DownloadLink> = None;
    assert!(matches!(DownloadLink::try_parse_self(&mut link, &mut cx), Ok(false)));
    let mut comment: Option<Comment> = None;
    assert!(matches!(Comment::try_parse_self(&mut comment, &mut cx), Ok(false)));
    let mut name: Option<ExecutableName> = None;
    assert!(matches!(ExecutableName::try_parse_self(&mut name, &mut cx), Ok(false)));
    let mut help: Option<FlagHelp> = None;
    assert!(matches!(FlagHelp::try_parse_self(&mut help, &mut cx), Ok(false)));
    assert_eq!(cx.cursor, 5);
    assert!(link.is_none() && comment.is_none() && name.is_none() && help.is_none());
}

#[test]
fn non_unicode_arguments_are_not_taken_as_text() {
    let mut cx = ParsingContext::from_args(vec![Arg::NotUnicode("x\u{FFFD}".to_string())], docs("p"));
    let mut link: Option<DownloadLink> = None;
    assert!(matches!(DownloadLink::try_parse_self(&mut link, &mut cx), Ok(false)));
    let mut path: Option<AppPath> = None;
    assert!(matches!(AppPath::try_parse_self(&mut path, &mut cx), Ok(true)));
    assert_eq!(path.expect("taken").0, Arg::NotUnicode("x\u{FFFD}".to_string()));
}

#[test]
fn documentation_text_lists_sections_and_entries() {
    let mut store = DocumentationStore::new(docs("prog"));
    store.add("flag", Documentation { names: Names { main: "--help", short: Some("-h"), aliases: &["--usage"] }, description: "print help" });
    store.add("argument", Documentation { names: Names::only_main("name"), description: "a name" });
    assert_eq!(
        store.text(),
        "prog - test program\n\narguments:\n  name  a name\n\nflags:\n  --help, -h, --usage  print help\n"
    );
    assert_eq!(DocumentationStore::new(docs("p")).text(), "p - test program\n");
}
