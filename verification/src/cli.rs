//! Command-line parsing: options that take themselves from the argument
//! list one after another, subcommands, and their documentation.
use vstd::prelude::*;
use crate::sections::{add_to_sections, sections_view, sections_wf, spec_add_entry};
use crate::text::{join, push_joined, str_order, strs_view, StrOrder};

verus! {

/// The names an option or a subcommand answers to.
#[derive(Debug, Clone, Copy)]
pub struct Names {
    pub main: &'static str,
    pub short: Option<&'static str>,
    pub aliases: &'static [&'static str],
}

impl Names {
    /// Names with a main name only.
    pub fn only_main(name: &'static str) -> (r: Names)
        ensures
            r.main == name,
            r.short is None,
            r.aliases@.len() == 0,
    {
        Names { main: name, short: None, aliases: &[] }
    }
}

/// The help entry of an option, a subcommand or a program.
#[derive(Debug, Clone, Copy)]
pub struct Documentation {
    pub names: Names,
    pub description: &'static str,
}

/// The documentation of a program or subcommand and of what it accepts,
/// grouped by section; sections are kept in the order of their names.
#[derive(Debug)]
pub struct DocumentationStore {
    pub item_docs: Documentation,
    pub store: Vec<(&'static str, Vec<Documentation>)>,
}

impl DocumentationStore {
    /// Sections come in strictly increasing order of their names, and none is empty.
    pub open spec fn wf(&self) -> bool {
        sections_wf(self.store@)
    }

    /// The documentation of `item_docs`, with nothing listed yet.
    pub fn new(item_docs: Documentation) -> (r: Self)
        ensures
            r.wf(),
            r.item_docs == item_docs,
            r.store@.len() == 0,
    {
        DocumentationStore { item_docs, store: Vec::new() }
    }

    /// Lists `docs` under `section`, after the entries already there.
    pub fn add(&mut self, section: &'static str, docs: Documentation)
        requires
            old(self).wf(),
        ensures
            final(self).wf(),
            final(self).item_docs == old(self).item_docs,
            sections_view(final(self).store@) == spec_add_entry(
                sections_view(old(self).store@),
                section@,
                docs,
            ),
    {
        add_to_sections(&mut self.store, section, docs);
    }
}

/// The names an entry is shown with: its main name, its short name if it
/// has one, then its aliases.
pub open spec fn shown_names(n: Names) -> Seq<Seq<char>> {
    seq![n.main@] + match n.short {
        Some(s) => seq![s@],
        None => Seq::empty(),
    } + strs_view(n.aliases@)
}

/// The line of one entry: two spaces, its names joined by ", ", two spaces
/// and its description.
pub open spec fn entry_line(d: Documentation) -> Seq<char> {
    "  "@ + join(shown_names(d.names), ", "@) + "  "@ + d.description@ + "\n"@
}

/// The lines of several entries, in order.
pub open spec fn entry_lines(es: Seq<Documentation>) -> Seq<char>
    decreases es.len(),
{
    if es.len() == 0 {
        Seq::empty()
    } else {
        entry_lines(es.drop_last()) + entry_line(es.last())
    }
}

/// The text of the sections, in order: for each, a blank line, its name in
/// the plural followed by a colon, then one line per entry.
pub open spec fn section_lines(ss: Seq<(&'static str, Vec<Documentation>)>) -> Seq<char>
    decreases ss.len(),
{
    if ss.len() == 0 {
        Seq::empty()
    } else {
        section_lines(ss.drop_last()) + "\n"@ + ss.last().0@ + "s:\n"@ + entry_lines(ss.last().1@)
    }
}

/// The help text of a documentation store: the main name and description of
/// what it documents, then its sections.
pub open spec fn help_text(d: DocumentationStore) -> Seq<char> {
    d.item_docs.names.main@ + " - "@ + d.item_docs.description@ + "\n"@ + section_lines(d.store@)
}

/// Appends the line of one entry.
fn push_entry_line(out: &mut String, d: &Documentation)
    ensures
        final(out)@ == old(out)@ + entry_line(*d),
{
    let ghost start = out@;
    let mut parts: Vec<&str> = Vec::new();
    parts.push(d.names.main);
    if let Some(short) = d.names.short {
        parts.push(short);
    }
    let mut k: usize = 0;
    let ghost head = strs_view(parts@);
    assert(head =~= seq![d.names.main@] + match d.names.short {
        Some(s) => seq![s@],
        None => Seq::<Seq<char>>::empty(),
    });
    while k < d.names.aliases.len()
        invariant
            k <= d.names.aliases@.len(),
            strs_view(parts@) =~= head + strs_view(d.names.aliases@.subrange(0, k as int)),
        decreases d.names.aliases.len() - k,
    {
        let ghost before = parts@;
        let ghost a = d.names.aliases@[k as int];
        parts.push(d.names.aliases[k]);
        assert(strs_view(parts@) =~= strs_view(before).push(a@));
        assert(strs_view(d.names.aliases@.subrange(0, k + 1)) =~= strs_view(
            d.names.aliases@.subrange(0, k as int),
        ).push(a@));
        k += 1;
    }
    assert(d.names.aliases@.subrange(0, k as int) =~= d.names.aliases@);
    out.append("  ");
    push_joined(out, parts.as_slice(), ", ");
    out.append("  ");
    out.append(d.description);
    out.append("\n");
    assert(out@ =~= start + entry_line(*d));
}

impl DocumentationStore {
    /// The help text, as `help_text` gives it.
    pub fn text(&self) -> (r: String)
        ensures
            r@ == help_text(*self),
    {
        let mut out = String::new();
        out.append(self.item_docs.names.main);
        out.append(" - ");
        out.append(self.item_docs.description);
        out.append("\n");
        let ghost head = out@;
        let mut k: usize = 0;
        while k < self.store.len()
            invariant
                k <= self.store@.len(),
                out@ == head + section_lines(self.store@.subrange(0, k as int)),
            decreases self.store.len() - k,
        {
            let section = &self.store[k];
            out.append("\n");
            out.append(section.0);
            out.append("s:\n");
            let ghost title = out@;
            let mut j: usize = 0;
            while j < section.1.len()
                invariant
                    j <= section.1@.len(),
                    out@ == title + entry_lines(section.1@.subrange(0, j as int)),
                decreases section.1.len() - j,
            {
                push_entry_line(&mut out, &section.1[j]);
                j += 1;
                assert(section.1@.subrange(0, j as int).drop_last() =~= section.1@.subrange(0, j - 1));
            }
            assert(section.1@.subrange(0, section.1@.len() as int) =~= section.1@);
            k += 1;
            assert(self.store@.subrange(0, k as int).drop_last() =~= self.store@.subrange(0, k - 1));
            assert(out@ =~= head + section_lines(self.store@.subrange(0, k as int)));
        }
        assert(self.store@.subrange(0, self.store@.len() as int) =~= self.store@);
        assert(out@ =~= help_text(*self));
        out
    }
}

/// `d` has the main name `main`, no other name, and the description
/// `description`.
pub open spec fn is_plain_entry(d: Documentation, main: Seq<char>, description: Seq<char>) -> bool {
    &&& d.names.main@ == main
    &&& d.names.short is None
    &&& d.names.aliases@.len() == 0
    &&& d.description@ == description
}

/// `after` is `before` with one more entry, listed under `section`, with the
/// main name `main`, no other name, and the description `description`.
pub open spec fn lists_entry(
    before: DocumentationStore,
    after: DocumentationStore,
    section: Seq<char>,
    main: Seq<char>,
    description: Seq<char>,
) -> bool {
    &&& after.item_docs == before.item_docs
    &&& exists|d: Documentation|
        #[trigger] is_plain_entry(d, main, description) && sections_view(after.store@)
            == spec_add_entry(sections_view(before.store@), section, d)
}

/// `r` is the error for a missing argument, with the message `msg`.
pub open spec fn missing_with<T>(r: Result<T, CliError>, msg: Seq<char>) -> bool {
    match r {
        Err(CliError::Missing(m)) => m@ == msg,
        _ => false,
    }
}

/// `r` is the error for an unacceptable argument, with the message `msg`.
pub open spec fn invalid_with<T>(r: Result<T, CliError>, msg: Seq<char>) -> bool {
    match r {
        Err(CliError::Invalid(m)) => m@ == msg,
        _ => false,
    }
}

/// A command-line argument: its text when it is valid Unicode; otherwise
/// its text with each sequence that is not valid replaced by U+FFFD.
#[derive(Debug, Clone, PartialEq, Eq)]
pub enum Arg {
    Unicode(String),
    NotUnicode(String),
}

/// Why parsing the command line failed.
#[derive(Debug)]
pub enum CliError {
    /// Arguments were left over; they are given.
    UnmatchedArgs(Vec<Arg>),
    /// A required argument was not given.
    Missing(&'static str),
    /// An argument was given but is not acceptable.
    Invalid(&'static str),
}

/// How an argument is shown: its text, with what is not valid Unicode
/// replaced.
pub open spec fn arg_text(a: Arg) -> Seq<char> {
    match a {
        Arg::Unicode(s) => s@,
        Arg::NotUnicode(s) => s@,
    }
}

/// How the arguments `rest` are shown: each as `arg_text` gives it.
pub open spec fn args_text(rest: Seq<Arg>) -> Seq<Seq<char>> {
    rest.map_values(|a: Arg| arg_text(a))
}

/// The message of an error: for arguments left over, "unmatched args: "
/// and the arguments joined by one space within single quotes; otherwise
/// the error's own message.
pub open spec fn error_text(e: CliError) -> Seq<char> {
    match e {
        CliError::UnmatchedArgs(rest) => "unmatched args: '"@ + join(args_text(rest@), " "@) + "'"@,
        CliError::Missing(m) => m@,
        CliError::Invalid(m) => m@,
    }
}

impl CliError {
    /// The message of the error, as `error_text` gives it.
    pub fn message(&self) -> (r: String)
        ensures
            r@ == error_text(*self),
    {
        match self {
            CliError::UnmatchedArgs(rest) => {
                let mut out = String::from_str("unmatched args: '");
                let ghost prefix = out@;
                let ghost parts = args_text(rest@);
                let mut k: usize = 0;
                while k < rest.len()
                    invariant
                        k <= rest@.len(),
                        parts == args_text(rest@),
                        out@ == prefix + join(parts.subrange(0, k as int), " "@),
                    decreases rest.len() - k,
                {
                    let ghost before = out@;
                    if k > 0 {
                        out.append(" ");
                    }
                    match &rest[k] {
                        Arg::Unicode(a) => out.append(a.as_str()),
                        Arg::NotUnicode(a) => out.append(a.as_str()),
                    }
                    k += 1;
                    proof {
                        let w = parts.subrange(0, k as int);
                        assert(w.drop_last() =~= parts.subrange(0, k - 1));
                        assert(w.last() == arg_text(rest@[k - 1]));
                        if k == 1 {
                            assert(join(parts.subrange(0, 0), " "@) =~= Seq::<char>::empty());
                            assert(out@ =~= prefix + join(w, " "@));
                        } else {
                            assert(out@ =~= prefix + join(w, " "@));
                        }
                    }
                }
                assert(parts.subrange(0, rest@.len() as int) =~= parts);
                out.append("'");
                out
            },
            CliError::Missing(m) => String::from_str(m),
            CliError::Invalid(m) => String::from_str(m),
        }
    }
}

/// The arguments, how many of them have been taken, and the documentation
/// gathered so far.
#[derive(Debug)]
pub struct ParsingContext {
    pub args: Vec<Arg>,
    pub cursor: usize,
    pub documentation: DocumentationStore,
}

/// The text of an argument that is valid Unicode; `None` for one that is not.
pub open spec fn arg_view(a: Arg) -> Option<Seq<char>> {
    match a {
        Arg::Unicode(s) => Some(s@),
        Arg::NotUnicode(_) => None,
    }
}

impl ParsingContext {
    /// The next argument that has not been taken, as text, if there is one
    /// and it is valid Unicode.
    pub open spec fn next_arg(&self) -> Option<Seq<char>> {
        if self.cursor < self.args@.len() {
            arg_view(self.args@[self.cursor as int])
        } else {
            None
        }
    }

    /// A context over `args` with nothing taken yet.
    pub fn from_args(args: Vec<Arg>, program_docs: Documentation) -> (r: Self)
        ensures
            r.args@ == args@,
            r.cursor == 0,
            r.documentation.item_docs == program_docs,
            r.documentation.store@.len() == 0,
    {
        ParsingContext { args, cursor: 0, documentation: DocumentationStore::new(program_docs) }
    }

    fn next_str(&self) -> (r: Option<&str>)
        ensures
            match r {
                Some(s) => self.next_arg() == Some(s@) && self.cursor < self.args@.len(),
                None => self.next_arg() is None,
            },
    {
        if self.cursor < self.args.len() {
            match &self.args[self.cursor] {
                Arg::Unicode(s) => Some(s.as_str()),
                Arg::NotUnicode(_) => None,
            }
        } else {
            None
        }
    }
}

/// The next argument is one of `names`.
pub open spec fn next_names(cx: ParsingContext, names: Names) -> bool {
    match cx.next_arg() {
        Some(a) => names_match(names, a),
        None => false,
    }
}

/// `arg` is one of `names`.
pub open spec fn names_match(names: Names, arg: Seq<char>) -> bool {
    ||| arg == names.main@
    ||| (names.short matches Some(s) && arg == s@)
    ||| exists|k: int| 0 <= k < names.aliases@.len() && arg == (#[trigger] names.aliases@[k])@
}

/// Whether `arg` is one of `names`.
pub fn matches_names(names: &Names, arg: &str) -> (r: bool)
    ensures
        r == names_match(*names, arg@),
{
    if str_order(names.main, arg) == StrOrder::Equal {
        return true;
    }
    if let Some(short) = names.short {
        if str_order(short, arg) == StrOrder::Equal {
            return true;
        }
    }
    let mut k: usize = 0;
    while k < names.aliases.len()
        invariant
            k <= names.aliases@.len(),
            forall|j: int| 0 <= j < k ==> arg@ != (#[trigger] names.aliases@[j])@,
        decreases names.aliases.len() - k,
    {
        if str_order(names.aliases[k], arg) == StrOrder::Equal {
            return true;
        }
        k += 1;
    }
    false
}

/// Whether the next argument is one of `names`.
pub fn next_matches(cx: &ParsingContext, names: &Names) -> (r: bool)
    ensures
        r == next_names(*cx, *names),
        r ==> cx.cursor < cx.args@.len(),
{
    match cx.next_str() {
        Some(next) => matches_names(names, next),
        None => false,
    }
}

/// A value that takes itself from the arguments, possibly in several steps.
pub trait Opt: Sized {
    /// What one attempt to take the value may come to: the value and the
    /// context before, the result, and the value and the context after.
    spec fn takes(
        this: Option<Self>,
        cx: ParsingContext,
        r: Result<bool, CliError>,
        this_after: Option<Self>,
        cx_after: ParsingContext,
    ) -> bool;

    /// Tries to take the value from the next arguments; returns whether
    /// progress is made, in which case the value is set and arguments were
    /// taken. When no progress is made, nothing is taken.
    fn try_parse_self(this: &mut Option<Self>, cx: &mut ParsingContext) -> (r: Result<
        bool,
        CliError,
    >)
        requires
            old(cx).documentation.wf(),
        ensures
            old(cx).cursor <= old(cx).args@.len() ==> final(cx).cursor <= final(cx).args@.len(),
            final(cx).args@ == old(cx).args@,
            final(cx).documentation == old(cx).documentation,
            r matches Ok(true) ==> final(cx).cursor > old(cx).cursor && final(this).is_some(),
            r matches Ok(false) ==> final(cx).cursor == old(cx).cursor && old(this).is_some()
                == final(this).is_some(),
            Self::takes(*old(this), *old(cx), r, *final(this), *final(cx)),
    ;

    /// What the value may come to once parsing is over, from what was taken.
    spec fn finalizes(this: Option<Self>, r: Result<Self, CliError>) -> bool;

    /// The value once parsing is over: the one taken, or a default, or an
    /// error when the value is required.
    fn finalize(this: Option<Self>) -> (r: Result<Self, CliError>)
        ensures
            Self::finalizes(this, r),
    ;

    /// What listing the option's documentation does to a store.
    spec fn documents(before: DocumentationStore, after: DocumentationStore) -> bool;

    /// Lists the option's documentation.
    fn add_documentation(store: &mut DocumentationStore)
        requires
            old(store).wf(),
        ensures
            final(store).wf(),
            Self::documents(*old(store), *final(store)),
    ;
}

/// What takes the arguments that remain once the options are parsed.
pub trait FinalOpt: Sized {
    /// What taking the remaining arguments of `cx` may come to.
    spec fn tail_takes(cx: ParsingContext, r: Result<Self, CliError>) -> bool;

    fn try_parse_self(cx: ParsingContext) -> (r: Result<Self, CliError>)
        ensures
            Self::tail_takes(cx, r),
    ;
}

/// Accepts only when every argument has been taken.
pub struct EmptyTail;

impl FinalOpt for EmptyTail {
    /// Accepted when no argument remains; otherwise the error lists the
    /// arguments that remain.
    open spec fn tail_takes(cx: ParsingContext, r: Result<Self, CliError>) -> bool {
        &&& (r is Ok <==> cx.cursor >= cx.args@.len())
        &&& (r matches Err(e) ==> e matches CliError::UnmatchedArgs(rest) && rest@ == cx.args@.skip(
            cx.cursor as int,
        ))
    }

    fn try_parse_self(cx: ParsingContext) -> (r: Result<Self, CliError>) {
        if cx.cursor >= cx.args.len() {
            Ok(EmptyTail)
        } else {
            let mut args = cx.args;
            let rest = args.split_off(cx.cursor);
            Err(CliError::UnmatchedArgs(rest))
        }
    }
}

/// Hands over the context with the arguments that remain.
pub struct TailArgs(pub ParsingContext);

impl FinalOpt for TailArgs {
    /// Always accepted, with the whole context.
    open spec fn tail_takes(cx: ParsingContext, r: Result<Self, CliError>) -> bool {
        r matches Ok(t) && t.0 == cx
    }

    fn try_parse_self(cx: ParsingContext) -> (r: Result<Self, CliError>) {
        Ok(TailArgs(cx))
    }
}

/// A flag: present or not, given by its name, short name or an alias.
pub trait FlagBool: Sized {
    const NAME: &'static str;
    const DESCRIPTION: &'static str;

    spec fn spec_aliases() -> &'static [&'static str];

    /// The flag's other names.
    fn aliases() -> (r: &'static [&'static str])
        ensures
            r == Self::spec_aliases(),
    ;

    spec fn spec_short_name() -> Option<&'static str>;

    /// The flag's short name, if it has one.
    fn short_name() -> (r: Option<&'static str>)
        ensures
            r == Self::spec_short_name(),
    ;

    spec fn spec_from_bool(value: bool) -> Self;

    /// The flag's value from whether it was given.
    fn from_bool(value: bool) -> (r: Self)
        ensures
            r == Self::spec_from_bool(value),
    ;
}

pub open spec fn flag_names<T: FlagBool>() -> Names {
    Names { main: T::NAME, short: T::spec_short_name(), aliases: T::spec_aliases() }
}

impl<T: FlagBool> Opt for T {
    /// The next argument is taken when it names the flag and the flag is not
    /// set yet; the flag is then on.
    open spec fn takes(
        this: Option<Self>,
        cx: ParsingContext,
        r: Result<bool, CliError>,
        this_after: Option<Self>,
        cx_after: ParsingContext,
    ) -> bool {
        &&& r == Ok::<bool, CliError>(this.is_none() && next_names(cx, flag_names::<T>()))
        &&& (r matches Ok(true) ==> cx_after.cursor == cx.cursor + 1 && this_after == Some(
            T::spec_from_bool(true),
        ))
        &&& (r matches Ok(false) ==> this_after == this)
    }

    /// Takes the next argument when it names the flag and the flag is not set yet.
    fn try_parse_self(this: &mut Option<Self>, cx: &mut ParsingContext) -> (r: Result<
        bool,
        CliError,
    >) {
        if this.is_some() {
            return Ok(false);
        }
        let names = Names { main: T::NAME, short: T::short_name(), aliases: T::aliases() };
        let matched = next_matches(cx, &names);
        if matched {
            let n = cx.args.len();
            assert(cx.cursor < n);
            cx.cursor = cx.cursor + 1;
            *this = Some(T::from_bool(true));
            Ok(true)
        } else {
            Ok(false)
        }
    }

    /// The flag is off unless it was given.
    open spec fn finalizes(this: Option<Self>, r: Result<Self, CliError>) -> bool {
        r == Ok::<Self, CliError>(
            match this {
                Some(value) => value,
                None => T::spec_from_bool(false),
            },
        )
    }

    fn finalize(this: Option<Self>) -> (r: Result<Self, CliError>) {
        match this {
            Some(value) => Ok(value),
            None => Ok(T::from_bool(false)),
        }
    }

    /// The flag is listed under "flag" with its names and description.
    open spec fn documents(before: DocumentationStore, after: DocumentationStore) -> bool {
        &&& after.item_docs == before.item_docs
        &&& sections_view(after.store@) == spec_add_entry(
            sections_view(before.store@),
            "flag"@,
            Documentation { names: flag_names::<T>(), description: T::DESCRIPTION },
        )
    }

    fn add_documentation(store: &mut DocumentationStore) {
        let names = Names { main: T::NAME, short: T::short_name(), aliases: T::aliases() };
        store.add("flag", Documentation { names, description: T::DESCRIPTION });
    }
}

/// The help flag, `--help` or `-h`.
pub struct FlagHelp(pub bool);

impl FlagBool for FlagHelp {
    const NAME: &'static str = "--help";
    const DESCRIPTION: &'static str = "print help";

    open spec fn spec_short_name() -> Option<&'static str> {
        Some("-h")
    }

    fn short_name() -> (r: Option<&'static str>) {
        Some("-h")
    }

    open spec fn spec_aliases() -> &'static [&'static str] {
        &[]
    }

    fn aliases() -> (r: &'static [&'static str]) {
        &[]
    }

    open spec fn spec_from_bool(value: bool) -> Self {
        FlagHelp(value)
    }

    fn from_bool(value: bool) -> (r: Self) {
        FlagHelp(value)
    }
}

/// Calls `callback` with the context, if there is one.
pub fn current_command<F: FnOnce(ParsingContext)>(cx: Option<ParsingContext>, callback: F)
    requires
        forall|c: ParsingContext| callback.requires((c,)),
    ensures
        cx matches Some(c) ==> call_ensures(callback, (c,), ()),
{
    if let Some(cx) = cx {
        callback(cx);
    }
}

/// `sub` is the context a matched subcommand `docs` runs with: the arguments
/// of `c`, the subcommand's name taken, and the documentation of the
/// subcommand alone.
pub open spec fn subcommand_context(c: ParsingContext, docs: Documentation, sub: ParsingContext) -> bool {
    &&& sub.args == c.args
    &&& sub.cursor == c.cursor + 1
    &&& sub.documentation.item_docs == docs
    &&& sub.documentation.store@.len() == 0
}

/// When the next argument names the subcommand `docs`, takes it and calls
/// `callback` with a context documented as that subcommand, and no context
/// remains; otherwise lists the subcommand under "subcommand" and hands the
/// context back.
pub fn subcommand<F: FnOnce(ParsingContext)>(
    cx: Option<ParsingContext>,
    docs: Documentation,
    callback: F,
) -> (r: Option<ParsingContext>)
    requires
        forall|c: ParsingContext| callback.requires((c,)),
        cx matches Some(c) ==> c.documentation.wf(),
    ensures
        match cx {
            None => r is None,
            Some(c) => if next_names(c, docs.names) {
                &&& r is None
                &&& exists|sub: ParsingContext|
                    #[trigger] subcommand_context(c, docs, sub) && call_ensures(callback, (sub,), ())
            } else {
                r matches Some(c2) && {
                    &&& c2.args == c.args
                    &&& c2.cursor == c.cursor
                    &&& c2.documentation.wf()
                    &&& c2.documentation.item_docs == c.documentation.item_docs
                    &&& sections_view(c2.documentation.store@) == spec_add_entry(
                        sections_view(c.documentation.store@),
                        "subcommand"@,
                        docs,
                    )
                }
            },
        },
{
    match cx {
        None => None,
        Some(mut cx) => {
            let ghost old_cx = cx;
            let matched = next_matches(&cx, &docs.names);
            if matched {
                let n = cx.args.len();
                assert(cx.cursor < n);
                cx.cursor = cx.cursor + 1;
                cx.documentation = DocumentationStore::new(docs);
                let ghost sub = cx;
                callback(cx);
                assert(subcommand_context(old_cx, docs, sub));
                None
            } else {
                cx.documentation.add("subcommand", docs);
                Some(cx)
            }
        },
    }
}

/// Several options that must all be given, one after the other.
pub struct Sequence<ITEMS>(pub ITEMS);

/// Taking what remains of a sequence failed: nothing is taken, and the
/// cursor is back at `start`.
pub open spec fn seq_gives_up<S>(
    start: usize,
    r: Result<bool, CliError>,
    this_after: Option<S>,
    cx_after: ParsingContext,
) -> bool {
    &&& r == Ok::<bool, CliError>(false)
    &&& this_after is None
    &&& cx_after.cursor == start
}

/// An attempt of one option gave a value.
pub open spec fn took<T>(r: Result<bool, CliError>, v: Option<T>) -> bool {
    r is Ok && v is Some
}

/// The fourth value is tried from `cx`, the first three having been taken.
pub open spec fn seq_fourth<T1, T2, T3, T4: Opt>(
    x1: T1,
    x2: T2,
    x3: T3,
    start: usize,
    cx: ParsingContext,
    r: Result<bool, CliError>,
    this_after: Option<Sequence<(T1, T2, T3, T4)>>,
    cx_after: ParsingContext,
) -> bool {
    exists|r4: Result<bool, CliError>, v4: Option<T4>, c4: ParsingContext|
        #[trigger] T4::takes(None, cx, r4, v4, c4) && if took(r4, v4) {
            &&& r == Ok::<bool, CliError>(true)
            &&& this_after == Some(Sequence((x1, x2, x3, v4.unwrap())))
            &&& cx_after == c4
        } else {
            seq_gives_up(start, r, this_after, cx_after)
        }
}

/// The third value is tried from `cx`, the first two having been taken.
pub open spec fn seq_third<T1, T2, T3: Opt, T4: Opt>(
    x1: T1,
    x2: T2,
    start: usize,
    cx: ParsingContext,
    r: Result<bool, CliError>,
    this_after: Option<Sequence<(T1, T2, T3, T4)>>,
    cx_after: ParsingContext,
) -> bool {
    exists|r3: Result<bool, CliError>, v3: Option<T3>, c3: ParsingContext|
        #[trigger] T3::takes(None, cx, r3, v3, c3) && if took(r3, v3) {
            seq_fourth(x1, x2, v3.unwrap(), start, c3, r, this_after, cx_after)
        } else {
            seq_gives_up(start, r, this_after, cx_after)
        }
}

/// The second value is tried from `cx`, the first having been taken.
pub open spec fn seq_second<T1, T2: Opt, T3: Opt, T4: Opt>(
    x1: T1,
    start: usize,
    cx: ParsingContext,
    r: Result<bool, CliError>,
    this_after: Option<Sequence<(T1, T2, T3, T4)>>,
    cx_after: ParsingContext,
) -> bool {
    exists|r2: Result<bool, CliError>, v2: Option<T2>, c2: ParsingContext|
        #[trigger] T2::takes(None, cx, r2, v2, c2) && if took(r2, v2) {
            seq_third(x1, v2.unwrap(), start, c2, r, this_after, cx_after)
        } else {
            seq_gives_up(start, r, this_after, cx_after)
        }
}

/// The four values are tried in order from `cx`: each from where the one
/// before stopped. When each gives a value, the sequence is taken with them;
/// when one fails or gives none, nothing is taken.
pub open spec fn seq_first<T1: Opt, T2: Opt, T3: Opt, T4: Opt>(
    cx: ParsingContext,
    r: Result<bool, CliError>,
    this_after: Option<Sequence<(T1, T2, T3, T4)>>,
    cx_after: ParsingContext,
) -> bool {
    exists|r1: Result<bool, CliError>, v1: Option<T1>, c1: ParsingContext|
        #[trigger] T1::takes(None, cx, r1, v1, c1) && if took(r1, v1) {
            seq_second(v1.unwrap(), cx.cursor, c1, r, this_after, cx_after)
        } else {
            seq_gives_up(cx.cursor, r, this_after, cx_after)
        }
}

/// The fourth default, the first three being `x1`, `x2`, `x3`.
pub open spec fn seq_fin_fourth<T1, T2, T3, T4: Opt>(
    x1: T1,
    x2: T2,
    x3: T3,
    r: Result<Sequence<(T1, T2, T3, T4)>, CliError>,
) -> bool {
    exists|r4: Result<T4, CliError>|
        #[trigger] T4::finalizes(None, r4) && match r4 {
            Ok(x4) => r == Ok::<Sequence<(T1, T2, T3, T4)>, CliError>(Sequence((x1, x2, x3, x4))),
            Err(e) => r == Err::<Sequence<(T1, T2, T3, T4)>, CliError>(e),
        }
}

/// The third and fourth defaults, the first two being `x1`, `x2`.
pub open spec fn seq_fin_third<T1, T2, T3: Opt, T4: Opt>(
    x1: T1,
    x2: T2,
    r: Result<Sequence<(T1, T2, T3, T4)>, CliError>,
) -> bool {
    exists|r3: Result<T3, CliError>|
        #[trigger] T3::finalizes(None, r3) && match r3 {
            Ok(x3) => seq_fin_fourth(x1, x2, x3, r),
            Err(e) => r == Err::<Sequence<(T1, T2, T3, T4)>, CliError>(e),
        }
}

/// The defaults from the second on, the first being `x1`.
pub open spec fn seq_fin_second<T1, T2: Opt, T3: Opt, T4: Opt>(
    x1: T1,
    r: Result<Sequence<(T1, T2, T3, T4)>, CliError>,
) -> bool {
    exists|r2: Result<T2, CliError>|
        #[trigger] T2::finalizes(None, r2) && match r2 {
            Ok(x2) => seq_fin_third(x1, x2, r),
            Err(e) => r == Err::<Sequence<(T1, T2, T3, T4)>, CliError>(e),
        }
}

/// The four defaults, taken in order; the first that fails gives the error.
pub open spec fn seq_fin_first<T1: Opt, T2: Opt, T3: Opt, T4: Opt>(
    r: Result<Sequence<(T1, T2, T3, T4)>, CliError>,
) -> bool {
    exists|r1: Result<T1, CliError>|
        #[trigger] T1::finalizes(None, r1) && match r1 {
            Ok(x1) => seq_fin_second(x1, r),
            Err(e) => r == Err::<Sequence<(T1, T2, T3, T4)>, CliError>(e),
        }
}

impl<T1: Opt, T2: Opt, T3: Opt, T4: Opt> Opt for Sequence<(T1, T2, T3, T4)> {
    /// The four values are taken in order, each from where the one before
    /// stopped; when one of them is not given, nothing is taken at all.
    open spec fn takes(
        this: Option<Self>,
        cx: ParsingContext,
        r: Result<bool, CliError>,
        this_after: Option<Self>,
        cx_after: ParsingContext,
    ) -> bool {
        if this.is_some() {
            r == Ok::<bool, CliError>(false) && this_after == this && cx_after == cx
        } else {
            seq_first::<T1, T2, T3, T4>(cx, r, this_after, cx_after)
        }
    }

    /// Takes the four values in order; when one of them cannot be taken,
    /// nothing is taken at all.
    fn try_parse_self(this: &mut Option<Self>, cx: &mut ParsingContext) -> (r: Result<
        bool,
        CliError,
    >)
        ensures
            r is Ok,
    {
        if this.is_some() {
            return Ok(false);
        }
        let checkpoint = cx.cursor;
        let ghost c0 = *cx;
        let mut v1: Option<T1> = None;
        let r1 = T1::try_parse_self(&mut v1, cx);
        let ghost c1 = *cx;
        if r1.is_err() || v1.is_none() {
            cx.cursor = checkpoint;
            assert(seq_first::<T1, T2, T3, T4>(c0, Ok(false), None, *cx));
            return Ok(false);
        }
        let x1 = v1.unwrap();
        let mut v2: Option<T2> = None;
        let r2 = T2::try_parse_self(&mut v2, cx);
        let ghost c2 = *cx;
        if r2.is_err() || v2.is_none() {
            cx.cursor = checkpoint;
            assert(seq_second::<T1, T2, T3, T4>(x1, checkpoint, c1, Ok(false), None, *cx));
            assert(seq_first::<T1, T2, T3, T4>(c0, Ok(false), None, *cx));
            return Ok(false);
        }
        let x2 = v2.unwrap();
        let mut v3: Option<T3> = None;
        let r3 = T3::try_parse_self(&mut v3, cx);
        let ghost c3 = *cx;
        if r3.is_err() || v3.is_none() {
            cx.cursor = checkpoint;
            assert(seq_third::<T1, T2, T3, T4>(x1, x2, checkpoint, c2, Ok(false), None, *cx));
            assert(seq_second::<T1, T2, T3, T4>(x1, checkpoint, c1, Ok(false), None, *cx));
            assert(seq_first::<T1, T2, T3, T4>(c0, Ok(false), None, *cx));
            return Ok(false);
        }
        let x3 = v3.unwrap();
        let mut v4: Option<T4> = None;
        let r4 = T4::try_parse_self(&mut v4, cx);
        if r4.is_err() || v4.is_none() {
            cx.cursor = checkpoint;
            assert(seq_fourth::<T1, T2, T3, T4>(x1, x2, x3, checkpoint, c3, Ok(false), None, *cx));
            assert(seq_third::<T1, T2, T3, T4>(x1, x2, checkpoint, c2, Ok(false), None, *cx));
            assert(seq_second::<T1, T2, T3, T4>(x1, checkpoint, c1, Ok(false), None, *cx));
            assert(seq_first::<T1, T2, T3, T4>(c0, Ok(false), None, *cx));
            return Ok(false);
        }
        let x4 = v4.unwrap();
        *this = Some(Sequence((x1, x2, x3, x4)));
        assert(seq_fourth::<T1, T2, T3, T4>(x1, x2, x3, checkpoint, c3, Ok(true), *this, *cx));
        assert(seq_third::<T1, T2, T3, T4>(x1, x2, checkpoint, c2, Ok(true), *this, *cx));
        assert(seq_second::<T1, T2, T3, T4>(x1, checkpoint, c1, Ok(true), *this, *cx));
        assert(seq_first::<T1, T2, T3, T4>(c0, Ok(true), *this, *cx));
        Ok(true)
    }

    /// The values taken, or else each value's own default, in order; the
    /// first of them that fails gives the error.
    open spec fn finalizes(this: Option<Self>, r: Result<Self, CliError>) -> bool {
        match this {
            Some(v) => r == Ok::<Self, CliError>(v),
            None => seq_fin_first::<T1, T2, T3, T4>(r),
        }
    }

    fn finalize(this: Option<Self>) -> (r: Result<Self, CliError>) {
        match this {
            Some(value) => Ok(value),
            None => {
                let r1 = T1::finalize(None);
                let x1 = match r1 {
                    Ok(x) => x,
                    Err(e) => {
                        return Err(e);
                    },
                };
                let r2 = T2::finalize(None);
                let x2 = match r2 {
                    Ok(x) => x,
                    Err(e) => {
                        assert(seq_fin_second::<T1, T2, T3, T4>(x1, Err(e)));
                        return Err(e);
                    },
                };
                let r3 = T3::finalize(None);
                let x3 = match r3 {
                    Ok(x) => x,
                    Err(e) => {
                        assert(seq_fin_third::<T1, T2, T3, T4>(x1, x2, Err(e)));
                        assert(seq_fin_second::<T1, T2, T3, T4>(x1, Err(e)));
                        return Err(e);
                    },
                };
                let r4 = T4::finalize(None);
                match r4 {
                    Ok(x4) => {
                        let r = Ok(Sequence((x1, x2, x3, x4)));
                        assert(seq_fin_fourth::<T1, T2, T3, T4>(x1, x2, x3, r));
                        assert(seq_fin_third::<T1, T2, T3, T4>(x1, x2, r));
                        assert(seq_fin_second::<T1, T2, T3, T4>(x1, r));
                        r
                    },
                    Err(e) => {
                        assert(seq_fin_fourth::<T1, T2, T3, T4>(x1, x2, x3, Err(e)));
                        assert(seq_fin_third::<T1, T2, T3, T4>(x1, x2, Err(e)));
                        assert(seq_fin_second::<T1, T2, T3, T4>(x1, Err(e)));
                        Err(e)
                    },
                }
            },
        }
    }

    /// Listed under "sequence" as one entry.
    open spec fn documents(before: DocumentationStore, after: DocumentationStore) -> bool {
        lists_entry(
            before,
            after,
            "sequence"@,
            "some sequence"@,
            "Waiting for const_alloc, needed for children docs concatingation"@,
        )
    }

    fn add_documentation(store: &mut DocumentationStore) {
        let entry = Documentation {
            names: Names::only_main("some sequence"),
            description: "Waiting for const_alloc, needed for children docs concatingation",
        };
        store.add("sequence", entry);
        assert(is_plain_entry(
            entry,
            "some sequence"@,
            "Waiting for const_alloc, needed for children docs concatingation"@,
        ));
    }
}

/// The path the program was started by: the first argument.
pub struct AppPath(pub Arg);

impl Opt for AppPath {
    /// The first argument is taken when the path is not set yet; taking it
    /// after other arguments fails.
    open spec fn takes(
        this: Option<Self>,
        cx: ParsingContext,
        r: Result<bool, CliError>,
        this_after: Option<Self>,
        cx_after: ParsingContext,
    ) -> bool {
        if this.is_some() {
            r == Ok::<bool, CliError>(false) && this_after == this
        } else if cx.cursor != 0 {
            invalid_with(r, "App Path should go first"@) && cx_after == cx && this_after == this
        } else if cx.args@.len() > 0 {
            &&& r == Ok::<bool, CliError>(true)
            &&& cx_after.cursor == 1
            &&& this_after matches Some(p) && arg_view(p.0) == arg_view(cx.args@[0]) && arg_text(p.0)
                == arg_text(cx.args@[0])
        } else {
            r == Ok::<bool, CliError>(false) && this_after == this
        }
    }

    /// Takes the first argument; fails when arguments were taken before.
    fn try_parse_self(this: &mut Option<Self>, cx: &mut ParsingContext) -> (r: Result<
        bool,
        CliError,
    >) {
        if this.is_some() {
            return Ok(false);
        }
        if cx.cursor != 0 {
            return Err(CliError::Invalid("App Path should go first"));
        }
        if cx.args.len() > 0 {
            let first = match &cx.args[0] {
                Arg::Unicode(text) => Arg::Unicode(text.clone()),
                Arg::NotUnicode(text) => Arg::NotUnicode(text.clone()),
            };
            *this = Some(AppPath(first));
            cx.cursor = 1;
            Ok(true)
        } else {
            Ok(false)
        }
    }

    /// The path is required.
    open spec fn finalizes(this: Option<Self>, r: Result<Self, CliError>) -> bool {
        match this {
            Some(v) => r == Ok::<Self, CliError>(v),
            None => missing_with(r, "First argument should be App Path"@),
        }
    }

    fn finalize(this: Option<Self>) -> (r: Result<Self, CliError>) {
        match this {
            Some(v) => Ok(v),
            None => Err(CliError::Missing("First argument should be App Path")),
        }
    }

    /// Listed under "hidden" as `APP_PATH`.
    open spec fn documents(before: DocumentationStore, after: DocumentationStore) -> bool {
        lists_entry(before, after, "hidden"@, "APP_PATH"@, "path to this program"@)
    }

    fn add_documentation(store: &mut DocumentationStore) {
        let entry = Documentation { names: Names::only_main("APP_PATH"), description: "path to this program" };
        store.add("hidden", entry);
        assert(is_plain_entry(entry, "APP_PATH"@, "path to this program"@));
    }
}

/// What parsing a command line came to: the callback was given the values,
/// or help was asked for, in which case the documentation gathered is
/// handed back to be shown and the callback is not called.
pub enum ParseOutcome {
    Done,
    Help(DocumentationStore),
}

/// The names of the help flag.
pub open spec fn help_names() -> Names {
    flag_names::<FlagHelp>()
}

/// The help flag's entry.
pub open spec fn help_entry() -> Documentation {
    Documentation { names: help_names(), description: FlagHelp::DESCRIPTION }
}

/// `d` is `s` with the help flag listed under "flag".
pub open spec fn help_listed(s: DocumentationStore, d: DocumentationStore) -> bool {
    &&& d.item_docs == s.item_docs
    &&& sections_view(d.store@) == spec_add_entry(sections_view(s.store@), "flag"@, help_entry())
}

/// `c` is a context reached from `cx` while taking options: the same
/// arguments, and no fewer of them taken.
pub open spec fn after_options(cx: ParsingContext, c: ParsingContext) -> bool {
    &&& c.args@ == cx.args@
    &&& cx.cursor <= c.cursor <= c.args@.len()
}

/// `e` is an error that taking an option of type `T` from a context
/// reached from `cx`, or its final value, may give.
pub open spec fn opt_error<T: Opt>(cx: ParsingContext, e: CliError) -> bool {
    ||| exists|v: Option<T>, c: ParsingContext, v2: Option<T>, c2: ParsingContext|
        after_options(cx, c) && #[trigger] T::takes(v, c, Err::<bool, CliError>(e), v2, c2)
    ||| exists|v: Option<T>| #[trigger] T::finalizes(v, Err::<T, CliError>(e))
}

/// An error met from a context reached from `mid` is one met from a context
/// reached from `cx`, when `mid` is itself reached from `cx`.
proof fn lemma_opt_error_from<T: Opt>(cx: ParsingContext, mid: ParsingContext, e: CliError)
    requires
        opt_error::<T>(mid, e),
        mid.args@ == cx.args@,
        cx.cursor <= mid.cursor,
    ensures
        opt_error::<T>(cx, e),
{
    if exists|v: Option<T>, c: ParsingContext, v2: Option<T>, c2: ParsingContext|
        after_options(mid, c) && #[trigger] T::takes(v, c, Err::<bool, CliError>(e), v2, c2) {
        let (v, c, v2, c2) = choose|v: Option<T>, c: ParsingContext, v2: Option<T>, c2: ParsingContext|
            after_options(mid, c) && #[trigger] T::takes(v, c, Err::<bool, CliError>(e), v2, c2);
        assert(after_options(cx, c));
    }
}

/// `e` is an error that taking the remaining arguments, from a context
/// reached from `cx`, may give.
pub open spec fn tail_error<F: FinalOpt>(cx: ParsingContext, e: CliError) -> bool {
    exists|c: ParsingContext| after_options(cx, c) && #[trigger] F::tail_takes(c, Err::<F, CliError>(e))
}

/// A callback that takes the values of some options and of what follows
/// them; `Inputs` lists their types.
pub trait ParsingCallback<Inputs>: Sized {
    /// The callback accepts any values.
    spec fn accepts_all(&self) -> bool;

    /// What parsing `cx` for this callback may come to.
    spec fn outcome(&self, cx: ParsingContext, add_help: bool, r: Result<ParseOutcome, CliError>) -> bool;

    /// Documents the options, takes them from the arguments until none of
    /// them makes progress, hands what remains to the final value, and calls
    /// the callback with the values; with `add_help`, a help flag met before
    /// an option stops parsing and hands the documentation back.
    fn process(cx: ParsingContext, callback: Self, add_help: bool) -> (r: Result<ParseOutcome, CliError>)
        requires
            cx.cursor <= cx.args@.len(),
            cx.documentation.wf(),
            callback.accepts_all(),
        ensures
            r matches Ok(ParseOutcome::Help(d)) ==> add_help && d.wf(),
            add_help && next_names(cx, help_names()) ==> r matches Ok(ParseOutcome::Help(_)),
            callback.outcome(cx, add_help, r),
    ;
}

/// Documents the help flag when it is wanted: it is then listed under
/// "flag"; otherwise the documentation stays as it is.
fn document_help(cx: &mut ParsingContext, add_help: bool)
    requires
        old(cx).documentation.wf(),
    ensures
        final(cx).documentation.wf(),
        final(cx).args == old(cx).args,
        final(cx).cursor == old(cx).cursor,
        final(cx).documentation.item_docs == old(cx).documentation.item_docs,
        add_help ==> help_listed(old(cx).documentation, final(cx).documentation),
        !add_help ==> final(cx).documentation == old(cx).documentation,
{
    if add_help {
        FlagHelp::add_documentation(&mut cx.documentation);
    }
}

/// Whether the next argument asks for help, taking it when it does; when it
/// does not, nothing changes.
fn help_asked(cx: &mut ParsingContext, add_help: bool) -> (r: bool)
    requires
        old(cx).cursor <= old(cx).args@.len(),
        old(cx).documentation.wf(),
    ensures
        r == (add_help && next_names(*old(cx), help_names())),
        final(cx).documentation == old(cx).documentation,
        final(cx).args@ == old(cx).args@,
        !r ==> *final(cx) == *old(cx),
        final(cx).cursor <= final(cx).args@.len(),
{
    if !add_help {
        return false;
    }
    let names = Names { main: FlagHelp::NAME, short: FlagHelp::short_name(), aliases: FlagHelp::aliases() };
    if next_matches(cx, &names) {
        let n = cx.args.len();
        assert(cx.cursor < n);
        cx.cursor = cx.cursor + 1;
        true
    } else {
        false
    }
}

/// The steps of one round over 1 option(s), given the contexts `d..`
/// between them and what each returned, `m..`.
#[verifier::opaque]
pub open spec fn round_by1<T1: Opt>(vs: (Option<T1>,), c: ParsingContext, ws: (Option<T1>,), c2: ParsingContext, progress: bool, m1: bool) -> bool {
    &&& T1::takes(vs.0, c, Ok::<bool, CliError>(m1), ws.0, c2)
    &&& progress == (m1)
}

/// One round over 1 option(s) from `c`: each is tried in order, from where
/// the one before stopped, and `progress` tells whether any of them took
/// something; `ws` are the values and `c2` the context after the round.
#[verifier::opaque]
pub open spec fn round1<T1: Opt>(vs: (Option<T1>,), c: ParsingContext, ws: (Option<T1>,), c2: ParsingContext, progress: bool) -> bool {
    exists|m1: bool| #[trigger] round_by1::<T1>(vs, c, ws, c2, progress, m1)
}

/// Step `i` of a trace of rounds over 1 option(s): the state before it
/// continues, and the round leads to the next state.
#[verifier::opaque]
pub open spec fn trace_step1<T1: Opt>(tr: Seq<((Option<T1>,), ParsingContext, bool)>, i: int) -> bool {
    tr[i].2 && round1::<T1>(tr[i].0, tr[i].1, tr[i + 1].0, tr[i + 1].1, tr[i + 1].2)
}

/// `tr` records `k` rounds over 1 option(s) from `start`, ending with the
/// values `vs`, the context `c` and whether the last round took something.
#[verifier::opaque]
pub open spec fn trace1<T1: Opt>(tr: Seq<((Option<T1>,), ParsingContext, bool)>, start: ParsingContext, k: nat, vs: (Option<T1>,), c: ParsingContext, progress: bool) -> bool {
    &&& tr.len() == k + 1
    &&& tr[0] == ((None::<T1>,), start, true)
    &&& tr[k as int] == (vs, c, progress)
    &&& forall|i: int| 0 <= i < k ==> #[trigger] trace_step1::<T1>(tr, i)
}

/// The values and the context after `k` rounds over 1 option(s) from
/// `start`, every round before the last having taken something;
/// `progress` tells whether the last round did.
#[verifier::opaque]
pub open spec fn reach1<T1: Opt>(start: ParsingContext, k: nat, vs: (Option<T1>,), c: ParsingContext, progress: bool) -> bool {
    exists|tr: Seq<((Option<T1>,), ParsingContext, bool)>| #[trigger] trace1::<T1>(tr, start, k, vs, c, progress)
}

/// The steps of a round over 1 option(s) that stops at option 1 with `e`.
#[verifier::opaque]
pub open spec fn round_err_by1_1<T1: Opt>(vs: (Option<T1>,), c: ParsingContext, e: CliError, ws: (Option<T1>,), d1: ParsingContext) -> bool {
    T1::takes(vs.0, c, Err::<bool, CliError>(e), ws.0, d1)
}

/// A round over 1 option(s) from `c` stops at option 1 with the error
/// `e`: the options before it are taken in order, and it gives `e`.
#[verifier::opaque]
pub open spec fn round_err1_1<T1: Opt>(vs: (Option<T1>,), c: ParsingContext, e: CliError) -> bool {
    exists|ws: (Option<T1>,), d1: ParsingContext| #[trigger] round_err_by1_1::<T1>(vs, c, e, ws, d1)
}

/// A round over 1 option(s) from `c` stops with the error `e`.
#[verifier::opaque]
pub open spec fn round_err1<T1: Opt>(vs: (Option<T1>,), c: ParsingContext, e: CliError) -> bool {
    round_err1_1::<T1>(vs, c, e)
}

/// Taking the final values of 1 option(s) in order stops with the error
/// `e`: the values before the failing one are given, and it gives `e`.
#[verifier::opaque]
pub open spec fn fin_err1<T1: Opt>(vs: (Option<T1>,), e: CliError) -> bool {
    ||| T1::finalizes(vs.0, Err::<T1, CliError>(e))
}

/// `st` is where parsing 1 option(s) starts from `cx`: the same arguments
/// and cursor, with the options documented in order and, with `add_help`,
/// the help flag after them.
#[verifier::opaque]
pub open spec fn started1<T1: Opt>(cx: ParsingContext, add_help: bool, st: ParsingContext) -> bool {
    &&& st.args == cx.args
    &&& st.cursor == cx.cursor
    &&& exists|s1: DocumentationStore|
        #![trigger T1::documents(cx.documentation, s1)]
        T1::documents(cx.documentation, s1) && if add_help { help_listed(s1, st.documentation) } else { st.documentation == s1 }
}

/// A trace of rounds over 1 option(s) grows by one round.
proof fn lemma_trace_push1<T1: Opt>(tr: Seq<((Option<T1>,), ParsingContext, bool)>, start: ParsingContext, k: nat, vs: (Option<T1>,), c: ParsingContext, ws: (Option<T1>,), c2: ParsingContext, p: bool)
    requires
        trace1::<T1>(tr, start, k, vs, c, true),
        round1::<T1>(vs, c, ws, c2, p),
    ensures
        trace1::<T1>(tr.push((ws, c2, p)), start, k + 1, ws, c2, p),
{
    reveal(trace1);
    reveal(trace_step1);
    let tr2 = tr.push((ws, c2, p));
    assert forall|i: int| 0 <= i < k + 1 implies #[trigger] trace_step1::<T1>(tr2, i) by {
        if i < k {
            assert(tr2[i] == tr[i]);
            assert(tr2[i + 1] == tr[i + 1]);
            assert(trace_step1::<T1>(tr, i));
        } else {
            assert(tr2[i] == (vs, c, true));
        }
    }
}

/// Tries 1 option(s) once each, in order, each from where the one before
/// stopped; gives whether any of them took something, or the first error,
/// with the values and the context after the round.
fn take_round1<T1: Opt>(vs: (Option<T1>,), cx: ParsingContext) -> (r: (Result<bool, CliError>, (Option<T1>,), ParsingContext))
    requires
        cx.cursor <= cx.args@.len(),
        cx.documentation.wf(),
    ensures
        r.2.cursor <= r.2.args@.len(),
        r.2.args@ == cx.args@,
        r.2.documentation == cx.documentation,
        r.0 is Ok ==> r.2.cursor >= cx.cursor,
        r.0 matches Ok(true) ==> r.2.cursor > cx.cursor,
        r.0 matches Ok(false) ==> r.2.cursor == cx.cursor,
        r.0 matches Ok(false) ==> vs.0.is_some() == r.1.0.is_some(),
        r.0 matches Ok(p) ==> round1::<T1>(vs, cx, r.1, r.2, p),
        r.0 matches Err(e) ==> round_err1::<T1>(vs, cx, e),
        r.0 matches Err(e) ==> (opt_error::<T1>(cx, e)),
{
    let ghost c0 = cx;
    let mut cx = cx;
    let (mut v1,) = vs;
    let r1 = T1::try_parse_self(&mut v1, &mut cx);
    let m1 = match r1 {
        Ok(m) => m,
        Err(e) => {
            proof {
                assert(T1::takes(vs.0, c0, Err::<bool, CliError>(e), v1, cx));
                assert(after_options(c0, c0));
                assert(opt_error::<T1>(c0, e));
                let ws = (v1,);
                assert(round_err_by1_1::<T1>(vs, c0, e, ws, cx)) by { reveal(round_err_by1_1); }
                assert(round_err1_1::<T1>(vs, c0, e)) by { reveal(round_err1_1); }
                assert(round_err1::<T1>(vs, c0, e)) by { reveal(round_err1); }
            }
            return (Err(e), (v1,), cx);
        },
    };
    let ghost a1 = v1;
    let ghost c1 = cx;
    proof {
        assert(round_by1::<T1>(vs, c0, (a1,), c1, m1, m1)) by { reveal(round_by1); }
        assert(round1::<T1>(vs, c0, (a1,), c1, m1)) by { reveal(round1); }
    }
    (Ok(m1), (v1,), cx)
}

/// Parsing 1 option(s) from `cx` ended well: rounds ran until one took
/// nothing, the remaining arguments gave the tail, and `cb` was called with
/// the final values of what the rounds took and with the tail.
#[verifier::opaque]
pub open spec fn done1<C: FnOnce(T1, F), T1: Opt, F: FinalOpt>(cb: C, cx: ParsingContext, add_help: bool) -> bool {
    exists|st: ParsingContext, k: nat, vs: (Option<T1>,), c: ParsingContext, x1: T1, t: F|
        #![trigger reach1::<T1>(st, k, vs, c, false), T1::finalizes(vs.0, Ok::<T1, CliError>(x1)), F::tail_takes(c, Ok::<F, CliError>(t))]
        started1::<T1>(cx, add_help, st) && reach1::<T1>(st, k, vs, c, false) && after_options(cx, c) && F::tail_takes(c, Ok::<F, CliError>(t)) && T1::finalizes(vs.0, Ok::<T1, CliError>(x1)) && call_ensures(cb, (x1, t), ())
}

/// `d` is the documentation of 1 option(s), listed in order after that of
/// `cx`, and then of the help flag.
#[verifier::opaque]
pub open spec fn helped1<T1: Opt>(cx: ParsingContext, d: DocumentationStore) -> bool {
    exists|s1: DocumentationStore|
        #![trigger T1::documents(cx.documentation, s1)]
        T1::documents(cx.documentation, s1) && help_listed(s1, d)
}

/// Parsing 1 option(s) from `cx` failed with `e`: a round stopped with it,
/// or, once the rounds ended, the remaining arguments or a final value gave it.
#[verifier::opaque]
pub open spec fn failed1<T1: Opt, F: FinalOpt>(cx: ParsingContext, add_help: bool, e: CliError) -> bool {
    exists|st: ParsingContext, k: nat, vs: (Option<T1>,), c: ParsingContext, p: bool|
        #![trigger reach1::<T1>(st, k, vs, c, p)]
        started1::<T1>(cx, add_help, st) && reach1::<T1>(st, k, vs, c, p) && if p {
            round_err1::<T1>(vs, c, e)
        } else {
            F::tail_takes(c, Err::<F, CliError>(e)) || (exists|t: F| #[trigger] F::tail_takes(c, Ok::<F, CliError>(t)) && fin_err1::<T1>(vs, e))
        }
}

impl<C: FnOnce(T1, F), T1: Opt, F: FinalOpt> ParsingCallback<(T1, F)> for C {
    open spec fn accepts_all(&self) -> bool {
        forall|a: T1, t: F| call_requires(*self, (a, t))
    }

    /// Done: rounds over the options ran until one took nothing, the remaining
    /// arguments gave the tail, and the callback was called with the final
    /// values of what the rounds took. Help: the documentation of the options
    /// and of the help flag. An error: the one a round, the tail or a final
    /// value gave, at the point the rounds reached.
    open spec fn outcome(&self, cx: ParsingContext, add_help: bool, r: Result<ParseOutcome, CliError>) -> bool {
        match r {
            Ok(ParseOutcome::Done) => done1::<C, T1, F>(*self, cx, add_help),
            Ok(ParseOutcome::Help(d)) => add_help && helped1::<T1>(cx, d),
            Err(e) => failed1::<T1, F>(cx, add_help, e) && (opt_error::<T1>(cx, e) || tail_error::<F>(cx, e)),
        }
    }

    fn process(cx: ParsingContext, callback: Self, add_help: bool) -> (r: Result<ParseOutcome, CliError>) {
        let mut ctx = cx;
        T1::add_documentation(&mut ctx.documentation);
        let ghost s1 = ctx.documentation;
        document_help(&mut ctx, add_help);
        let ghost start = ctx;
        assert(cx.next_arg() == start.next_arg());
        assert(started1::<T1>(cx, add_help, start)) by { reveal(started1); }
        proof {
            if add_help {
                assert(help_listed(s1, start.documentation));
                assert(helped1::<T1>(cx, start.documentation)) by { reveal(helped1); }
                assert(callback.outcome(cx, add_help, Ok(ParseOutcome::Help(start.documentation))));
            }
        }
        let ghost wants_help = add_help && next_names(cx, help_names());
        let mut v1: Option<T1> = None;
        let ghost mut k: nat = 0;
        let ghost mut tr: Seq<((Option<T1>,), ParsingContext, bool)> = seq![((v1,), start, true)];
        assert(trace1::<T1>(tr, start, 0, (v1,), ctx, true)) by { reveal(trace1); }
        loop
            invariant_except_break
                trace1::<T1>(tr, start, k, (v1,), ctx, true),
            invariant
                ctx.cursor <= ctx.args@.len(),
                ctx.documentation.wf(),
                ctx.documentation == start.documentation,
                ctx.args@ == start.args@,
                start.args@ == cx.args@,
                start.cursor == cx.cursor,
                ctx.cursor >= start.cursor,
                wants_help == (add_help && next_names(start, help_names())),
                wants_help == (add_help && next_names(cx, help_names())),
                wants_help ==> ctx.cursor == start.cursor,
                ctx.cursor == start.cursor ==> v1.is_none(),
                add_help ==> callback.outcome(cx, add_help, Ok(ParseOutcome::Help(start.documentation))),
                started1::<T1>(cx, add_help, start),
            ensures
                !wants_help,
                started1::<T1>(cx, add_help, start),
                reach1::<T1>(start, k, (v1,), ctx, false),
                ctx.cursor <= ctx.args@.len(),
                ctx.args@ == cx.args@,
                ctx.cursor >= cx.cursor,
            decreases ctx.args@.len() - ctx.cursor,
        {
            let ghost at_start = ctx;
            proof {
                if wants_help {
                    assert(at_start.next_arg() == start.next_arg());
                }
            }
            if help_asked(&mut ctx, add_help) {
                return Ok(ParseOutcome::Help(ctx.documentation));
            }
            assert(!wants_help);
            let ghost vs_old = (v1,);
            let ghost c_old = ctx;
            assert(trace1::<T1>(tr, start, k, vs_old, c_old, true));
            assert(reach1::<T1>(start, k, vs_old, c_old, true)) by { reveal(reach1); }
            let (rr, nvs, ncx) = take_round1::<T1>((v1,), ctx);
            ctx = ncx;
            let (n1,) = nvs;
            v1 = n1;
            let progress = match rr {
                Ok(p) => p,
                Err(e) => {
                    assert(failed1::<T1, F>(cx, add_help, e)) by { reveal(failed1); }
                    proof {
                        if opt_error::<T1>(c_old, e) { lemma_opt_error_from::<T1>(cx, c_old, e); }
                    }
                    return Err(e);
                },
            };
            proof {
                lemma_trace_push1::<T1>(tr, start, k, vs_old, c_old, (v1,), ctx, progress);
                tr = tr.push(((v1,), ctx, progress));
                k = k + 1;
            }
            if !progress {
                assert(reach1::<T1>(start, k, (v1,), ctx, false)) by { reveal(reach1); }
                break;
            }
        }
        let ghost tail_cx = ctx;
        let ghost vs_end = (v1,);
        let rt = F::try_parse_self(ctx);
        let tail = match rt {
            Ok(t) => t,
            Err(e) => {
                assert(F::tail_takes(tail_cx, Err::<F, CliError>(e)));
                assert(reach1::<T1>(start, k, vs_end, tail_cx, false)) by { reveal(reach1); }
                assert(failed1::<T1, F>(cx, add_help, e)) by { reveal(failed1); }
                return Err(e);
            },
        };
        assert(F::tail_takes(tail_cx, Ok::<F, CliError>(tail)));
        let ghost gt = tail;
        let fr1 = T1::finalize(v1);
        let x1 = match fr1 {
            Ok(x) => x,
            Err(e) => {
                assert(T1::finalizes(vs_end.0, Err::<T1, CliError>(e)));
                assert(fin_err1::<T1>(vs_end, e)) by { reveal(fin_err1); }
                assert(reach1::<T1>(start, k, vs_end, tail_cx, false)) by { reveal(reach1); }
                assert(failed1::<T1, F>(cx, add_help, e)) by { reveal(failed1); }
                return Err(e);
            },
        };
        assert(T1::finalizes(vs_end.0, Ok::<T1, CliError>(x1)));
        let ghost gx1 = x1;
        callback(x1, tail);
        assert(call_ensures(callback, (gx1, gt), ()));
        assert(reach1::<T1>(start, k, vs_end, tail_cx, false)) by { reveal(reach1); }
        assert(done1::<C, T1, F>(callback, cx, add_help)) by { reveal(done1); }
        Ok(ParseOutcome::Done)
    }
}

/// The steps of one round over 2 option(s), given the contexts `d..`
/// between them and what each returned, `m..`.
#[verifier::opaque]
pub open spec fn round_by2<T1: Opt, T2: Opt>(vs: (Option<T1>, Option<T2>,), c: ParsingContext, ws: (Option<T1>, Option<T2>,), c2: ParsingContext, progress: bool, d1: ParsingContext, m1: bool, m2: bool) -> bool {
    &&& T1::takes(vs.0, c, Ok::<bool, CliError>(m1), ws.0, d1)
    &&& T2::takes(vs.1, d1, Ok::<bool, CliError>(m2), ws.1, c2)
    &&& progress == (m1 || m2)
}

/// One round over 2 option(s) from `c`: each is tried in order, from where
/// the one before stopped, and `progress` tells whether any of them took
/// something; `ws` are the values and `c2` the context after the round.
#[verifier::opaque]
pub open spec fn round2<T1: Opt, T2: Opt>(vs: (Option<T1>, Option<T2>,), c: ParsingContext, ws: (Option<T1>, Option<T2>,), c2: ParsingContext, progress: bool) -> bool {
    exists|d1: ParsingContext, m1: bool, m2: bool| #[trigger] round_by2::<T1, T2>(vs, c, ws, c2, progress, d1, m1, m2)
}

/// Step `i` of a trace of rounds over 2 option(s): the state before it
/// continues, and the round leads to the next state.
#[verifier::opaque]
pub open spec fn trace_step2<T1: Opt, T2: Opt>(tr: Seq<((Option<T1>, Option<T2>,), ParsingContext, bool)>, i: int) -> bool {
    tr[i].2 && round2::<T1, T2>(tr[i].0, tr[i].1, tr[i + 1].0, tr[i + 1].1, tr[i + 1].2)
}

/// `tr` records `k` rounds over 2 option(s) from `start`, ending with the
/// values `vs`, the context `c` and whether the last round took something.
#[verifier::opaque]
pub open spec fn trace2<T1: Opt, T2: Opt>(tr: Seq<((Option<T1>, Option<T2>,), ParsingContext, bool)>, start: ParsingContext, k: nat, vs: (Option<T1>, Option<T2>,), c: ParsingContext, progress: bool) -> bool {
    &&& tr.len() == k + 1
    &&& tr[0] == ((None::<T1>, None::<T2>,), start, true)
    &&& tr[k as int] == (vs, c, progress)
    &&& forall|i: int| 0 <= i < k ==> #[trigger] trace_step2::<T1, T2>(tr, i)
}

/// The values and the context after `k` rounds over 2 option(s) from
/// `start`, every round before the last having taken something;
/// `progress` tells whether the last round did.
#[verifier::opaque]
pub open spec fn reach2<T1: Opt, T2: Opt>(start: ParsingContext, k: nat, vs: (Option<T1>, Option<T2>,), c: ParsingContext, progress: bool) -> bool {
    exists|tr: Seq<((Option<T1>, Option<T2>,), ParsingContext, bool)>| #[trigger] trace2::<T1, T2>(tr, start, k, vs, c, progress)
}

/// The steps of a round over 2 option(s) that stops at option 1 with `e`.
#[verifier::opaque]
pub open spec fn round_err_by2_1<T1: Opt, T2: Opt>(vs: (Option<T1>, Option<T2>,), c: ParsingContext, e: CliError, ws: (Option<T1>, Option<T2>,), d1: ParsingContext) -> bool {
    T1::takes(vs.0, c, Err::<bool, CliError>(e), ws.0, d1)
}

/// A round over 2 option(s) from `c` stops at option 1 with the error
/// `e`: the options before it are taken in order, and it gives `e`.
#[verifier::opaque]
pub open spec fn round_err2_1<T1: Opt, T2: Opt>(vs: (Option<T1>, Option<T2>,), c: ParsingContext, e: CliError) -> bool {
    exists|ws: (Option<T1>, Option<T2>,), d1: ParsingContext| #[trigger] round_err_by2_1::<T1, T2>(vs, c, e, ws, d1)
}

/// The steps of a round over 2 option(s) that stops at option 2 with `e`.
#[verifier::opaque]
pub open spec fn round_err_by2_2<T1: Opt, T2: Opt>(vs: (Option<T1>, Option<T2>,), c: ParsingContext, e: CliError, ws: (Option<T1>, Option<T2>,), d1: ParsingContext, d2: ParsingContext, m1: bool) -> bool {
    T1::takes(vs.0, c, Ok::<bool, CliError>(m1), ws.0, d1) && T2::takes(vs.1, d1, Err::<bool, CliError>(e), ws.1, d2)
}

/// A round over 2 option(s) from `c` stops at option 2 with the error
/// `e`: the options before it are taken in order, and it gives `e`.
#[verifier::opaque]
pub open spec fn round_err2_2<T1: Opt, T2: Opt>(vs: (Option<T1>, Option<T2>,), c: ParsingContext, e: CliError) -> bool {
    exists|ws: (Option<T1>, Option<T2>,), d1: ParsingContext, d2: ParsingContext, m1: bool| #[trigger] round_err_by2_2::<T1, T2>(vs, c, e, ws, d1, d2, m1)
}

/// A round over 2 option(s) from `c` stops with the error `e`.
#[verifier::opaque]
pub open spec fn round_err2<T1: Opt, T2: Opt>(vs: (Option<T1>, Option<T2>,), c: ParsingContext, e: CliError) -> bool {
    round_err2_1::<T1, T2>(vs, c, e) || round_err2_2::<T1, T2>(vs, c, e)
}

/// Taking the final values of 2 option(s) in order stops with the error
/// `e`: the values before the failing one are given, and it gives `e`.
#[verifier::opaque]
pub open spec fn fin_err2<T1: Opt, T2: Opt>(vs: (Option<T1>, Option<T2>,), e: CliError) -> bool {
    ||| T1::finalizes(vs.0, Err::<T1, CliError>(e))
    ||| exists|x1: T1|
        #![trigger T1::finalizes(vs.0, Ok::<T1, CliError>(x1))]
        T1::finalizes(vs.0, Ok::<T1, CliError>(x1)) && T2::finalizes(vs.1, Err::<T2, CliError>(e))
}

/// `st` is where parsing 2 option(s) starts from `cx`: the same arguments
/// and cursor, with the options documented in order and, with `add_help`,
/// the help flag after them.
#[verifier::opaque]
pub open spec fn started2<T1: Opt, T2: Opt>(cx: ParsingContext, add_help: bool, st: ParsingContext) -> bool {
    &&& st.args == cx.args
    &&& st.cursor == cx.cursor
    &&& exists|s1: DocumentationStore, s2: DocumentationStore|
        #![trigger T1::documents(cx.documentation, s1), T2::documents(s1, s2)]
        T1::documents(cx.documentation, s1) && T2::documents(s1, s2) && if add_help { help_listed(s2, st.documentation) } else { st.documentation == s2 }
}

/// A trace of rounds over 2 option(s) grows by one round.
proof fn lemma_trace_push2<T1: Opt, T2: Opt>(tr: Seq<((Option<T1>, Option<T2>,), ParsingContext, bool)>, start: ParsingContext, k: nat, vs: (Option<T1>, Option<T2>,), c: ParsingContext, ws: (Option<T1>, Option<T2>,), c2: ParsingContext, p: bool)
    requires
        trace2::<T1, T2>(tr, start, k, vs, c, true),
        round2::<T1, T2>(vs, c, ws, c2, p),
    ensures
        trace2::<T1, T2>(tr.push((ws, c2, p)), start, k + 1, ws, c2, p),
{
    reveal(trace2);
    reveal(trace_step2);
    let tr2 = tr.push((ws, c2, p));
    assert forall|i: int| 0 <= i < k + 1 implies #[trigger] trace_step2::<T1, T2>(tr2, i) by {
        if i < k {
            assert(tr2[i] == tr[i]);
            assert(tr2[i + 1] == tr[i + 1]);
            assert(trace_step2::<T1, T2>(tr, i));
        } else {
            assert(tr2[i] == (vs, c, true));
        }
    }
}

/// Tries 2 option(s) once each, in order, each from where the one before
/// stopped; gives whether any of them took something, or the first error,
/// with the values and the context after the round.
fn take_round2<T1: Opt, T2: Opt>(vs: (Option<T1>, Option<T2>,), cx: ParsingContext) -> (r: (Result<bool, CliError>, (Option<T1>, Option<T2>,), ParsingContext))
    requires
        cx.cursor <= cx.args@.len(),
        cx.documentation.wf(),
    ensures
        r.2.cursor <= r.2.args@.len(),
        r.2.args@ == cx.args@,
        r.2.documentation == cx.documentation,
        r.0 is Ok ==> r.2.cursor >= cx.cursor,
        r.0 matches Ok(true) ==> r.2.cursor > cx.cursor,
        r.0 matches Ok(false) ==> r.2.cursor == cx.cursor,
        r.0 matches Ok(false) ==> vs.0.is_some() == r.1.0.is_some(),
        r.0 matches Ok(false) ==> vs.1.is_some() == r.1.1.is_some(),
        r.0 matches Ok(p) ==> round2::<T1, T2>(vs, cx, r.1, r.2, p),
        r.0 matches Err(e) ==> round_err2::<T1, T2>(vs, cx, e),
        r.0 matches Err(e) ==> (opt_error::<T1>(cx, e) || opt_error::<T2>(cx, e)),
{
    let ghost c0 = cx;
    let mut cx = cx;
    let (mut v1, mut v2,) = vs;
    let r1 = T1::try_parse_self(&mut v1, &mut cx);
    let m1 = match r1 {
        Ok(m) => m,
        Err(e) => {
            proof {
                assert(T1::takes(vs.0, c0, Err::<bool, CliError>(e), v1, cx));
                assert(after_options(c0, c0));
                assert(opt_error::<T1>(c0, e));
                let ws = (v1, v2,);
                assert(round_err_by2_1::<T1, T2>(vs, c0, e, ws, cx)) by { reveal(round_err_by2_1); }
                assert(round_err2_1::<T1, T2>(vs, c0, e)) by { reveal(round_err2_1); }
                assert(round_err2::<T1, T2>(vs, c0, e)) by { reveal(round_err2); }
            }
            return (Err(e), (v1, v2,), cx);
        },
    };
    let ghost a1 = v1;
    let ghost c1 = cx;
    let r2 = T2::try_parse_self(&mut v2, &mut cx);
    let m2 = match r2 {
        Ok(m) => m,
        Err(e) => {
            proof {
                assert(T2::takes(vs.1, c1, Err::<bool, CliError>(e), v2, cx));
                assert(after_options(c0, c1));
                assert(opt_error::<T2>(c0, e));
                let ws = (a1, v2,);
                assert(round_err_by2_2::<T1, T2>(vs, c0, e, ws, c1, cx, m1)) by { reveal(round_err_by2_2); }
                assert(round_err2_2::<T1, T2>(vs, c0, e)) by { reveal(round_err2_2); }
                assert(round_err2::<T1, T2>(vs, c0, e)) by { reveal(round_err2); }
            }
            return (Err(e), (v1, v2,), cx);
        },
    };
    let ghost a2 = v2;
    let ghost c2 = cx;
    proof {
        assert(round_by2::<T1, T2>(vs, c0, (a1, a2,), c2, m1 || m2, c1, m1, m2)) by { reveal(round_by2); }
        assert(round2::<T1, T2>(vs, c0, (a1, a2,), c2, m1 || m2)) by { reveal(round2); }
    }
    (Ok(m1 || m2), (v1, v2,), cx)
}

/// Parsing 2 option(s) from `cx` ended well: rounds ran until one took
/// nothing, the remaining arguments gave the tail, and `cb` was called with
/// the final values of what the rounds took and with the tail.
#[verifier::opaque]
pub open spec fn done2<C: FnOnce(T1, T2, F), T1: Opt, T2: Opt, F: FinalOpt>(cb: C, cx: ParsingContext, add_help: bool) -> bool {
    exists|st: ParsingContext, k: nat, vs: (Option<T1>, Option<T2>,), c: ParsingContext, x1: T1, x2: T2, t: F|
        #![trigger reach2::<T1, T2>(st, k, vs, c, false), T1::finalizes(vs.0, Ok::<T1, CliError>(x1)), T2::finalizes(vs.1, Ok::<T2, CliError>(x2)), F::tail_takes(c, Ok::<F, CliError>(t))]
        started2::<T1, T2>(cx, add_help, st) && reach2::<T1, T2>(st, k, vs, c, false) && after_options(cx, c) && F::tail_takes(c, Ok::<F, CliError>(t)) && T1::finalizes(vs.0, Ok::<T1, CliError>(x1)) && T2::finalizes(vs.1, Ok::<T2, CliError>(x2)) && call_ensures(cb, (x1, x2, t), ())
}

/// `d` is the documentation of 2 option(s), listed in order after that of
/// `cx`, and then of the help flag.
#[verifier::opaque]
pub open spec fn helped2<T1: Opt, T2: Opt>(cx: ParsingContext, d: DocumentationStore) -> bool {
    exists|s1: DocumentationStore, s2: DocumentationStore|
        #![trigger T1::documents(cx.documentation, s1), T2::documents(s1, s2)]
        T1::documents(cx.documentation, s1) && T2::documents(s1, s2) && help_listed(s2, d)
}

/// Parsing 2 option(s) from `cx` failed with `e`: a round stopped with it,
/// or, once the rounds ended, the remaining arguments or a final value gave it.
#[verifier::opaque]
pub open spec fn failed2<T1: Opt, T2: Opt, F: FinalOpt>(cx: ParsingContext, add_help: bool, e: CliError) -> bool {
    exists|st: ParsingContext, k: nat, vs: (Option<T1>, Option<T2>,), c: ParsingContext, p: bool|
        #![trigger reach2::<T1, T2>(st, k, vs, c, p)]
        started2::<T1, T2>(cx, add_help, st) && reach2::<T1, T2>(st, k, vs, c, p) && if p {
            round_err2::<T1, T2>(vs, c, e)
        } else {
            F::tail_takes(c, Err::<F, CliError>(e)) || (exists|t: F| #[trigger] F::tail_takes(c, Ok::<F, CliError>(t)) && fin_err2::<T1, T2>(vs, e))
        }
}

impl<C: FnOnce(T1, T2, F), T1: Opt, T2: Opt, F: FinalOpt> ParsingCallback<(T1, T2, F)> for C {
    open spec fn accepts_all(&self) -> bool {
        forall|a: T1, b: T2, t: F| call_requires(*self, (a, b, t))
    }

    /// Done: rounds over the options ran until one took nothing, the remaining
    /// arguments gave the tail, and the callback was called with the final
    /// values of what the rounds took. Help: the documentation of the options
    /// and of the help flag. An error: the one a round, the tail or a final
    /// value gave, at the point the rounds reached.
    open spec fn outcome(&self, cx: ParsingContext, add_help: bool, r: Result<ParseOutcome, CliError>) -> bool {
        match r {
            Ok(ParseOutcome::Done) => done2::<C, T1, T2, F>(*self, cx, add_help),
            Ok(ParseOutcome::Help(d)) => add_help && helped2::<T1, T2>(cx, d),
            Err(e) => failed2::<T1, T2, F>(cx, add_help, e) && (opt_error::<T1>(cx, e) || opt_error::<T2>(cx, e) || tail_error::<F>(cx, e)),
        }
    }

    fn process(cx: ParsingContext, callback: Self, add_help: bool) -> (r: Result<ParseOutcome, CliError>) {
        let mut ctx = cx;
        T1::add_documentation(&mut ctx.documentation);
        let ghost s1 = ctx.documentation;
        T2::add_documentation(&mut ctx.documentation);
        let ghost s2 = ctx.documentation;
        document_help(&mut ctx, add_help);
        let ghost start = ctx;
        assert(cx.next_arg() == start.next_arg());
        assert(started2::<T1, T2>(cx, add_help, start)) by { reveal(started2); }
        proof {
            if add_help {
                assert(help_listed(s2, start.documentation));
                assert(helped2::<T1, T2>(cx, start.documentation)) by { reveal(helped2); }
                assert(callback.outcome(cx, add_help, Ok(ParseOutcome::Help(start.documentation))));
            }
        }
        let ghost wants_help = add_help && next_names(cx, help_names());
        let mut v1: Option<T1> = None;
        let mut v2: Option<T2> = None;
        let ghost mut k: nat = 0;
        let ghost mut tr: Seq<((Option<T1>, Option<T2>,), ParsingContext, bool)> = seq![((v1, v2,), start, true)];
        assert(trace2::<T1, T2>(tr, start, 0, (v1, v2,), ctx, true)) by { reveal(trace2); }
        loop
            invariant_except_break
                trace2::<T1, T2>(tr, start, k, (v1, v2,), ctx, true),
            invariant
                ctx.cursor <= ctx.args@.len(),
                ctx.documentation.wf(),
                ctx.documentation == start.documentation,
                ctx.args@ == start.args@,
                start.args@ == cx.args@,
                start.cursor == cx.cursor,
                ctx.cursor >= start.cursor,
                wants_help == (add_help && next_names(start, help_names())),
                wants_help == (add_help && next_names(cx, help_names())),
                wants_help ==> ctx.cursor == start.cursor,
                ctx.cursor == start.cursor ==> v1.is_none() && v2.is_none(),
                add_help ==> callback.outcome(cx, add_help, Ok(ParseOutcome::Help(start.documentation))),
                started2::<T1, T2>(cx, add_help, start),
            ensures
                !wants_help,
                started2::<T1, T2>(cx, add_help, start),
                reach2::<T1, T2>(start, k, (v1, v2,), ctx, false),
                ctx.cursor <= ctx.args@.len(),
                ctx.args@ == cx.args@,
                ctx.cursor >= cx.cursor,
            decreases ctx.args@.len() - ctx.cursor,
        {
            let ghost at_start = ctx;
            proof {
                if wants_help {
                    assert(at_start.next_arg() == start.next_arg());
                }
            }
            if help_asked(&mut ctx, add_help) {
                return Ok(ParseOutcome::Help(ctx.documentation));
            }
            assert(!wants_help);
            let ghost vs_old = (v1, v2,);
            let ghost c_old = ctx;
            assert(trace2::<T1, T2>(tr, start, k, vs_old, c_old, true));
            assert(reach2::<T1, T2>(start, k, vs_old, c_old, true)) by { reveal(reach2); }
            let (rr, nvs, ncx) = take_round2::<T1, T2>((v1, v2,), ctx);
            ctx = ncx;
            let (n1, n2,) = nvs;
            v1 = n1;
            v2 = n2;
            let progress = match rr {
                Ok(p) => p,
                Err(e) => {
                    assert(failed2::<T1, T2, F>(cx, add_help, e)) by { reveal(failed2); }
                    proof {
                        if opt_error::<T1>(c_old, e) { lemma_opt_error_from::<T1>(cx, c_old, e); }
                        if opt_error::<T2>(c_old, e) { lemma_opt_error_from::<T2>(cx, c_old, e); }
                    }
                    return Err(e);
                },
            };
            proof {
                lemma_trace_push2::<T1, T2>(tr, start, k, vs_old, c_old, (v1, v2,), ctx, progress);
                tr = tr.push(((v1, v2,), ctx, progress));
                k = k + 1;
            }
            if !progress {
                assert(reach2::<T1, T2>(start, k, (v1, v2,), ctx, false)) by { reveal(reach2); }
                break;
            }
        }
        let ghost tail_cx = ctx;
        let ghost vs_end = (v1, v2,);
        let rt = F::try_parse_self(ctx);
        let tail = match rt {
            Ok(t) => t,
            Err(e) => {
                assert(F::tail_takes(tail_cx, Err::<F, CliError>(e)));
                assert(reach2::<T1, T2>(start, k, vs_end, tail_cx, false)) by { reveal(reach2); }
                assert(failed2::<T1, T2, F>(cx, add_help, e)) by { reveal(failed2); }
                return Err(e);
            },
        };
        assert(F::tail_takes(tail_cx, Ok::<F, CliError>(tail)));
        let ghost gt = tail;
        let fr1 = T1::finalize(v1);
        let x1 = match fr1 {
            Ok(x) => x,
            Err(e) => {
                assert(T1::finalizes(vs_end.0, Err::<T1, CliError>(e)));
                assert(fin_err2::<T1, T2>(vs_end, e)) by { reveal(fin_err2); }
                assert(reach2::<T1, T2>(start, k, vs_end, tail_cx, false)) by { reveal(reach2); }
                assert(failed2::<T1, T2, F>(cx, add_help, e)) by { reveal(failed2); }
                return Err(e);
            },
        };
        assert(T1::finalizes(vs_end.0, Ok::<T1, CliError>(x1)));
        let ghost gx1 = x1;
        let fr2 = T2::finalize(v2);
        let x2 = match fr2 {
            Ok(x) => x,
            Err(e) => {
                assert(T2::finalizes(vs_end.1, Err::<T2, CliError>(e)));
                assert(fin_err2::<T1, T2>(vs_end, e)) by { reveal(fin_err2); }
                assert(reach2::<T1, T2>(start, k, vs_end, tail_cx, false)) by { reveal(reach2); }
                assert(failed2::<T1, T2, F>(cx, add_help, e)) by { reveal(failed2); }
                return Err(e);
            },
        };
        assert(T2::finalizes(vs_end.1, Ok::<T2, CliError>(x2)));
        let ghost gx2 = x2;
        callback(x1, x2, tail);
        assert(call_ensures(callback, (gx1, gx2, gt), ()));
        assert(reach2::<T1, T2>(start, k, vs_end, tail_cx, false)) by { reveal(reach2); }
        assert(done2::<C, T1, T2, F>(callback, cx, add_help)) by { reveal(done2); }
        Ok(ParseOutcome::Done)
    }
}

/// The steps of one round over 3 option(s), given the contexts `d..`
/// between them and what each returned, `m..`.
#[verifier::opaque]
pub open spec fn round_by3<T1: Opt, T2: Opt, T3: Opt>(vs: (Option<T1>, Option<T2>, Option<T3>,), c: ParsingContext, ws: (Option<T1>, Option<T2>, Option<T3>,), c2: ParsingContext, progress: bool, d1: ParsingContext, d2: ParsingContext, m1: bool, m2: bool, m3: bool) -> bool {
    &&& T1::takes(vs.0, c, Ok::<bool, CliError>(m1), ws.0, d1)
    &&& T2::takes(vs.1, d1, Ok::<bool, CliError>(m2), ws.1, d2)
    &&& T3::takes(vs.2, d2, Ok::<bool, CliError>(m3), ws.2, c2)
    &&& progress == (m1 || m2 || m3)
}

/// One round over 3 option(s) from `c`: each is tried in order, from where
/// the one before stopped, and `progress` tells whether any of them took
/// something; `ws` are the values and `c2` the context after the round.
#[verifier::opaque]
pub open spec fn round3<T1: Opt, T2: Opt, T3: Opt>(vs: (Option<T1>, Option<T2>, Option<T3>,), c: ParsingContext, ws: (Option<T1>, Option<T2>, Option<T3>,), c2: ParsingContext, progress: bool) -> bool {
    exists|d1: ParsingContext, d2: ParsingContext, m1: bool, m2: bool, m3: bool| #[trigger] round_by3::<T1, T2, T3>(vs, c, ws, c2, progress, d1, d2, m1, m2, m3)
}

/// Step `i` of a trace of rounds over 3 option(s): the state before it
/// continues, and the round leads to the next state.
#[verifier::opaque]
pub open spec fn trace_step3<T1: Opt, T2: Opt, T3: Opt>(tr: Seq<((Option<T1>, Option<T2>, Option<T3>,), ParsingContext, bool)>, i: int) -> bool {
    tr[i].2 && round3::<T1, T2, T3>(tr[i].0, tr[i].1, tr[i + 1].0, tr[i + 1].1, tr[i + 1].2)
}

/// `tr` records `k` rounds over 3 option(s) from `start`, ending with the
/// values `vs`, the context `c` and whether the last round took something.
#[verifier::opaque]
pub open spec fn trace3<T1: Opt, T2: Opt, T3: Opt>(tr: Seq<((Option<T1>, Option<T2>, Option<T3>,), ParsingContext, bool)>, start: ParsingContext, k: nat, vs: (Option<T1>, Option<T2>, Option<T3>,), c: ParsingContext, progress: bool) -> bool {
    &&& tr.len() == k + 1
    &&& tr[0] == ((None::<T1>, None::<T2>, None::<T3>,), start, true)
    &&& tr[k as int] == (vs, c, progress)
    &&& forall|i: int| 0 <= i < k ==> #[trigger] trace_step3::<T1, T2, T3>(tr, i)
}

/// The values and the context after `k` rounds over 3 option(s) from
/// `start`, every round before the last having taken something;
/// `progress` tells whether the last round did.
#[verifier::opaque]
pub open spec fn reach3<T1: Opt, T2: Opt, T3: Opt>(start: ParsingContext, k: nat, vs: (Option<T1>, Option<T2>, Option<T3>,), c: ParsingContext, progress: bool) -> bool {
    exists|tr: Seq<((Option<T1>, Option<T2>, Option<T3>,), ParsingContext, bool)>| #[trigger] trace3::<T1, T2, T3>(tr, start, k, vs, c, progress)
}

/// The steps of a round over 3 option(s) that stops at option 1 with `e`.
#[verifier::opaque]
pub open spec fn round_err_by3_1<T1: Opt, T2: Opt, T3: Opt>(vs: (Option<T1>, Option<T2>, Option<T3>,), c: ParsingContext, e: CliError, ws: (Option<T1>, Option<T2>, Option<T3>,), d1: ParsingContext) -> bool {
    T1::takes(vs.0, c, Err::<bool, CliError>(e), ws.0, d1)
}

/// A round over 3 option(s) from `c` stops at option 1 with the error
/// `e`: the options before it are taken in order, and it gives `e`.
#[verifier::opaque]
pub open spec fn round_err3_1<T1: Opt, T2: Opt, T3: Opt>(vs: (Option<T1>, Option<T2>, Option<T3>,), c: ParsingContext, e: CliError) -> bool {
    exists|ws: (Option<T1>, Option<T2>, Option<T3>,), d1: ParsingContext| #[trigger] round_err_by3_1::<T1, T2, T3>(vs, c, e, ws, d1)
}

/// The steps of a round over 3 option(s) that stops at option 2 with `e`.
#[verifier::opaque]
pub open spec fn round_err_by3_2<T1: Opt, T2: Opt, T3: Opt>(vs: (Option<T1>, Option<T2>, Option<T3>,), c: ParsingContext, e: CliError, ws: (Option<T1>, Option<T2>, Option<T3>,), d1: ParsingContext, d2: ParsingContext, m1: bool) -> bool {
    T1::takes(vs.0, c, Ok::<bool, CliError>(m1), ws.0, d1) && T2::takes(vs.1, d1, Err::<bool, CliError>(e), ws.1, d2)
}

/// A round over 3 option(s) from `c` stops at option 2 with the error
/// `e`: the options before it are taken in order, and it gives `e`.
#[verifier::opaque]
pub open spec fn round_err3_2<T1: Opt, T2: Opt, T3: Opt>(vs: (Option<T1>, Option<T2>, Option<T3>,), c: ParsingContext, e: CliError) -> bool {
    exists|ws: (Option<T1>, Option<T2>, Option<T3>,), d1: ParsingContext, d2: ParsingContext, m1: bool| #[trigger] round_err_by3_2::<T1, T2, T3>(vs, c, e, ws, d1, d2, m1)
}

/// The steps of a round over 3 option(s) that stops at option 3 with `e`.
#[verifier::opaque]
pub open spec fn round_err_by3_3<T1: Opt, T2: Opt, T3: Opt>(vs: (Option<T1>, Option<T2>, Option<T3>,), c: ParsingContext, e: CliError, ws: (Option<T1>, Option<T2>, Option<T3>,), d1: ParsingContext, d2: ParsingContext, d3: ParsingContext, m1: bool, m2: bool) -> bool {
    T1::takes(vs.0, c, Ok::<bool, CliError>(m1), ws.0, d1) && T2::takes(vs.1, d1, Ok::<bool, CliError>(m2), ws.1, d2) && T3::takes(vs.2, d2, Err::<bool, CliError>(e), ws.2, d3)
}

/// A round over 3 option(s) from `c` stops at option 3 with the error
/// `e`: the options before it are taken in order, and it gives `e`.
#[verifier::opaque]
pub open spec fn round_err3_3<T1: Opt, T2: Opt, T3: Opt>(vs: (Option<T1>, Option<T2>, Option<T3>,), c: ParsingContext, e: CliError) -> bool {
    exists|ws: (Option<T1>, Option<T2>, Option<T3>,), d1: ParsingContext, d2: ParsingContext, d3: ParsingContext, m1: bool, m2: bool| #[trigger] round_err_by3_3::<T1, T2, T3>(vs, c, e, ws, d1, d2, d3, m1, m2)
}

/// A round over 3 option(s) from `c` stops with the error `e`.
#[verifier::opaque]
pub open spec fn round_err3<T1: Opt, T2: Opt, T3: Opt>(vs: (Option<T1>, Option<T2>, Option<T3>,), c: ParsingContext, e: CliError) -> bool {
    round_err3_1::<T1, T2, T3>(vs, c, e) || round_err3_2::<T1, T2, T3>(vs, c, e) || round_err3_3::<T1, T2, T3>(vs, c, e)
}

/// Taking the final values of 3 option(s) in order stops with the error
/// `e`: the values before the failing one are given, and it gives `e`.
#[verifier::opaque]
pub open spec fn fin_err3<T1: Opt, T2: Opt, T3: Opt>(vs: (Option<T1>, Option<T2>, Option<T3>,), e: CliError) -> bool {
    ||| T1::finalizes(vs.0, Err::<T1, CliError>(e))
    ||| exists|x1: T1|
        #![trigger T1::finalizes(vs.0, Ok::<T1, CliError>(x1))]
        T1::finalizes(vs.0, Ok::<T1, CliError>(x1)) && T2::finalizes(vs.1, Err::<T2, CliError>(e))
    ||| exists|x1: T1, x2: T2|
        #![trigger T1::finalizes(vs.0, Ok::<T1, CliError>(x1)), T2::finalizes(vs.1, Ok::<T2, CliError>(x2))]
        T1::finalizes(vs.0, Ok::<T1, CliError>(x1)) && T2::finalizes(vs.1, Ok::<T2, CliError>(x2)) && T3::finalizes(vs.2, Err::<T3, CliError>(e))
}

/// `st` is where parsing 3 option(s) starts from `cx`: the same arguments
/// and cursor, with the options documented in order and, with `add_help`,
/// the help flag after them.
#[verifier::opaque]
pub open spec fn started3<T1: Opt, T2: Opt, T3: Opt>(cx: ParsingContext, add_help: bool, st: ParsingContext) -> bool {
    &&& st.args == cx.args
    &&& st.cursor == cx.cursor
    &&& exists|s1: DocumentationStore, s2: DocumentationStore, s3: DocumentationStore|
        #![trigger T1::documents(cx.documentation, s1), T2::documents(s1, s2), T3::documents(s2, s3)]
        T1::documents(cx.documentation, s1) && T2::documents(s1, s2) && T3::documents(s2, s3) && if add_help { help_listed(s3, st.documentation) } else { st.documentation == s3 }
}

/// A trace of rounds over 3 option(s) grows by one round.
proof fn lemma_trace_push3<T1: Opt, T2: Opt, T3: Opt>(tr: Seq<((Option<T1>, Option<T2>, Option<T3>,), ParsingContext, bool)>, start: ParsingContext, k: nat, vs: (Option<T1>, Option<T2>, Option<T3>,), c: ParsingContext, ws: (Option<T1>, Option<T2>, Option<T3>,), c2: ParsingContext, p: bool)
    requires
        trace3::<T1, T2, T3>(tr, start, k, vs, c, true),
        round3::<T1, T2, T3>(vs, c, ws, c2, p),
    ensures
        trace3::<T1, T2, T3>(tr.push((ws, c2, p)), start, k + 1, ws, c2, p),
{
    reveal(trace3);
    reveal(trace_step3);
    let tr2 = tr.push((ws, c2, p));
    assert forall|i: int| 0 <= i < k + 1 implies #[trigger] trace_step3::<T1, T2, T3>(tr2, i) by {
        if i < k {
            assert(tr2[i] == tr[i]);
            assert(tr2[i + 1] == tr[i + 1]);
            assert(trace_step3::<T1, T2, T3>(tr, i));
        } else {
            assert(tr2[i] == (vs, c, true));
        }
    }
}

/// Tries 3 option(s) once each, in order, each from where the one before
/// stopped; gives whether any of them took something, or the first error,
/// with the values and the context after the round.
fn take_round3<T1: Opt, T2: Opt, T3: Opt>(vs: (Option<T1>, Option<T2>, Option<T3>,), cx: ParsingContext) -> (r: (Result<bool, CliError>, (Option<T1>, Option<T2>, Option<T3>,), ParsingContext))
    requires
        cx.cursor <= cx.args@.len(),
        cx.documentation.wf(),
    ensures
        r.2.cursor <= r.2.args@.len(),
        r.2.args@ == cx.args@,
        r.2.documentation == cx.documentation,
        r.0 is Ok ==> r.2.cursor >= cx.cursor,
        r.0 matches Ok(true) ==> r.2.cursor > cx.cursor,
        r.0 matches Ok(false) ==> r.2.cursor == cx.cursor,
        r.0 matches Ok(false) ==> vs.0.is_some() == r.1.0.is_some(),
        r.0 matches Ok(false) ==> vs.1.is_some() == r.1.1.is_some(),
        r.0 matches Ok(false) ==> vs.2.is_some() == r.1.2.is_some(),
        r.0 matches Ok(p) ==> round3::<T1, T2, T3>(vs, cx, r.1, r.2, p),
        r.0 matches Err(e) ==> round_err3::<T1, T2, T3>(vs, cx, e),
        r.0 matches Err(e) ==> (opt_error::<T1>(cx, e) || opt_error::<T2>(cx, e) || opt_error::<T3>(cx, e)),
{
    let ghost c0 = cx;
    let mut cx = cx;
    let (mut v1, mut v2, mut v3,) = vs;
    let r1 = T1::try_parse_self(&mut v1, &mut cx);
    let m1 = match r1 {
        Ok(m) => m,
        Err(e) => {
            proof {
                assert(T1::takes(vs.0, c0, Err::<bool, CliError>(e), v1, cx));
                assert(after_options(c0, c0));
                assert(opt_error::<T1>(c0, e));
                let ws = (v1, v2, v3,);
                assert(round_err_by3_1::<T1, T2, T3>(vs, c0, e, ws, cx)) by { reveal(round_err_by3_1); }
                assert(round_err3_1::<T1, T2, T3>(vs, c0, e)) by { reveal(round_err3_1); }
                assert(round_err3::<T1, T2, T3>(vs, c0, e)) by { reveal(round_err3); }
            }
            return (Err(e), (v1, v2, v3,), cx);
        },
    };
    let ghost a1 = v1;
    let ghost c1 = cx;
    let r2 = T2::try_parse_self(&mut v2, &mut cx);
    let m2 = match r2 {
        Ok(m) => m,
        Err(e) => {
            proof {
                assert(T2::takes(vs.1, c1, Err::<bool, CliError>(e), v2, cx));
                assert(after_options(c0, c1));
                assert(opt_error::<T2>(c0, e));
                let ws = (a1, v2, v3,);
                assert(round_err_by3_2::<T1, T2, T3>(vs, c0, e, ws, c1, cx, m1)) by { reveal(round_err_by3_2); }
                assert(round_err3_2::<T1, T2, T3>(vs, c0, e)) by { reveal(round_err3_2); }
                assert(round_err3::<T1, T2, T3>(vs, c0, e)) by { reveal(round_err3); }
            }
            return (Err(e), (v1, v2, v3,), cx);
        },
    };
    let ghost a2 = v2;
    let ghost c2 = cx;
    let r3 = T3::try_parse_self(&mut v3, &mut cx);
    let m3 = match r3 {
        Ok(m) => m,
        Err(e) => {
            proof {
                assert(T3::takes(vs.2, c2, Err::<bool, CliError>(e), v3, cx));
                assert(after_options(c0, c2));
                assert(opt_error::<T3>(c0, e));
                let ws = (a1, a2, v3,);
                assert(round_err_by3_3::<T1, T2, T3>(vs, c0, e, ws, c1, c2, cx, m1, m2)) by { reveal(round_err_by3_3); }
                assert(round_err3_3::<T1, T2, T3>(vs, c0, e)) by { reveal(round_err3_3); }
                assert(round_err3::<T1, T2, T3>(vs, c0, e)) by { reveal(round_err3); }
            }
            return (Err(e), (v1, v2, v3,), cx);
        },
    };
    let ghost a3 = v3;
    let ghost c3 = cx;
    proof {
        assert(round_by3::<T1, T2, T3>(vs, c0, (a1, a2, a3,), c3, m1 || m2 || m3, c1, c2, m1, m2, m3)) by { reveal(round_by3); }
        assert(round3::<T1, T2, T3>(vs, c0, (a1, a2, a3,), c3, m1 || m2 || m3)) by { reveal(round3); }
    }
    (Ok(m1 || m2 || m3), (v1, v2, v3,), cx)
}

/// Parsing 3 option(s) from `cx` ended well: rounds ran until one took
/// nothing, the remaining arguments gave the tail, and `cb` was called with
/// the final values of what the rounds took and with the tail.
#[verifier::opaque]
pub open spec fn done3<C: FnOnce(T1, T2, T3, F), T1: Opt, T2: Opt, T3: Opt, F: FinalOpt>(cb: C, cx: ParsingContext, add_help: bool) -> bool {
    exists|st: ParsingContext, k: nat, vs: (Option<T1>, Option<T2>, Option<T3>,), c: ParsingContext, x1: T1, x2: T2, x3: T3, t: F|
        #![trigger reach3::<T1, T2, T3>(st, k, vs, c, false), T1::finalizes(vs.0, Ok::<T1, CliError>(x1)), T2::finalizes(vs.1, Ok::<T2, CliError>(x2)), T3::finalizes(vs.2, Ok::<T3, CliError>(x3)), F::tail_takes(c, Ok::<F, CliError>(t))]
        started3::<T1, T2, T3>(cx, add_help, st) && reach3::<T1, T2, T3>(st, k, vs, c, false) && after_options(cx, c) && F::tail_takes(c, Ok::<F, CliError>(t)) && T1::finalizes(vs.0, Ok::<T1, CliError>(x1)) && T2::finalizes(vs.1, Ok::<T2, CliError>(x2)) && T3::finalizes(vs.2, Ok::<T3, CliError>(x3)) && call_ensures(cb, (x1, x2, x3, t), ())
}

/// `d` is the documentation of 3 option(s), listed in order after that of
/// `cx`, and then of the help flag.
#[verifier::opaque]
pub open spec fn helped3<T1: Opt, T2: Opt, T3: Opt>(cx: ParsingContext, d: DocumentationStore) -> bool {
    exists|s1: DocumentationStore, s2: DocumentationStore, s3: DocumentationStore|
        #![trigger T1::documents(cx.documentation, s1), T2::documents(s1, s2), T3::documents(s2, s3)]
        T1::documents(cx.documentation, s1) && T2::documents(s1, s2) && T3::documents(s2, s3) && help_listed(s3, d)
}

/// Parsing 3 option(s) from `cx` failed with `e`: a round stopped with it,
/// or, once the rounds ended, the remaining arguments or a final value gave it.
#[verifier::opaque]
pub open spec fn failed3<T1: Opt, T2: Opt, T3: Opt, F: FinalOpt>(cx: ParsingContext, add_help: bool, e: CliError) -> bool {
    exists|st: ParsingContext, k: nat, vs: (Option<T1>, Option<T2>, Option<T3>,), c: ParsingContext, p: bool|
        #![trigger reach3::<T1, T2, T3>(st, k, vs, c, p)]
        started3::<T1, T2, T3>(cx, add_help, st) && reach3::<T1, T2, T3>(st, k, vs, c, p) && if p {
            round_err3::<T1, T2, T3>(vs, c, e)
        } else {
            F::tail_takes(c, Err::<F, CliError>(e)) || (exists|t: F| #[trigger] F::tail_takes(c, Ok::<F, CliError>(t)) && fin_err3::<T1, T2, T3>(vs, e))
        }
}

impl<C: FnOnce(T1, T2, T3, F), T1: Opt, T2: Opt, T3: Opt, F: FinalOpt> ParsingCallback<(T1, T2, T3, F)> for C {
    open spec fn accepts_all(&self) -> bool {
        forall|a: T1, b: T2, c: T3, t: F| call_requires(*self, (a, b, c, t))
    }

    /// Done: rounds over the options ran until one took nothing, the remaining
    /// arguments gave the tail, and the callback was called with the final
    /// values of what the rounds took. Help: the documentation of the options
    /// and of the help flag. An error: the one a round, the tail or a final
    /// value gave, at the point the rounds reached.
    open spec fn outcome(&self, cx: ParsingContext, add_help: bool, r: Result<ParseOutcome, CliError>) -> bool {
        match r {
            Ok(ParseOutcome::Done) => done3::<C, T1, T2, T3, F>(*self, cx, add_help),
            Ok(ParseOutcome::Help(d)) => add_help && helped3::<T1, T2, T3>(cx, d),
            Err(e) => failed3::<T1, T2, T3, F>(cx, add_help, e) && (opt_error::<T1>(cx, e) || opt_error::<T2>(cx, e) || opt_error::<T3>(cx, e) || tail_error::<F>(cx, e)),
        }
    }

    fn process(cx: ParsingContext, callback: Self, add_help: bool) -> (r: Result<ParseOutcome, CliError>) {
        let mut ctx = cx;
        T1::add_documentation(&mut ctx.documentation);
        let ghost s1 = ctx.documentation;
        T2::add_documentation(&mut ctx.documentation);
        let ghost s2 = ctx.documentation;
        T3::add_documentation(&mut ctx.documentation);
        let ghost s3 = ctx.documentation;
        document_help(&mut ctx, add_help);
        let ghost start = ctx;
        assert(cx.next_arg() == start.next_arg());
        assert(started3::<T1, T2, T3>(cx, add_help, start)) by { reveal(started3); }
        proof {
            if add_help {
                assert(help_listed(s3, start.documentation));
                assert(helped3::<T1, T2, T3>(cx, start.documentation)) by { reveal(helped3); }
                assert(callback.outcome(cx, add_help, Ok(ParseOutcome::Help(start.documentation))));
            }
        }
        let ghost wants_help = add_help && next_names(cx, help_names());
        let mut v1: Option<T1> = None;
        let mut v2: Option<T2> = None;
        let mut v3: Option<T3> = None;
        let ghost mut k: nat = 0;
        let ghost mut tr: Seq<((Option<T1>, Option<T2>, Option<T3>,), ParsingContext, bool)> = seq![((v1, v2, v3,), start, true)];
        assert(trace3::<T1, T2, T3>(tr, start, 0, (v1, v2, v3,), ctx, true)) by { reveal(trace3); }
        loop
            invariant_except_break
                trace3::<T1, T2, T3>(tr, start, k, (v1, v2, v3,), ctx, true),
            invariant
                ctx.cursor <= ctx.args@.len(),
                ctx.documentation.wf(),
                ctx.documentation == start.documentation,
                ctx.args@ == start.args@,
                start.args@ == cx.args@,
                start.cursor == cx.cursor,
                ctx.cursor >= start.cursor,
                wants_help == (add_help && next_names(start, help_names())),
                wants_help == (add_help && next_names(cx, help_names())),
                wants_help ==> ctx.cursor == start.cursor,
                ctx.cursor == start.cursor ==> v1.is_none() && v2.is_none() && v3.is_none(),
                add_help ==> callback.outcome(cx, add_help, Ok(ParseOutcome::Help(start.documentation))),
                started3::<T1, T2, T3>(cx, add_help, start),
            ensures
                !wants_help,
                started3::<T1, T2, T3>(cx, add_help, start),
                reach3::<T1, T2, T3>(start, k, (v1, v2, v3,), ctx, false),
                ctx.cursor <= ctx.args@.len(),
                ctx.args@ == cx.args@,
                ctx.cursor >= cx.cursor,
            decreases ctx.args@.len() - ctx.cursor,
        {
            let ghost at_start = ctx;
            proof {
                if wants_help {
                    assert(at_start.next_arg() == start.next_arg());
                }
            }
            if help_asked(&mut ctx, add_help) {
                return Ok(ParseOutcome::Help(ctx.documentation));
            }
            assert(!wants_help);
            let ghost vs_old = (v1, v2, v3,);
            let ghost c_old = ctx;
            assert(trace3::<T1, T2, T3>(tr, start, k, vs_old, c_old, true));
            assert(reach3::<T1, T2, T3>(start, k, vs_old, c_old, true)) by { reveal(reach3); }
            let (rr, nvs, ncx) = take_round3::<T1, T2, T3>((v1, v2, v3,), ctx);
            ctx = ncx;
            let (n1, n2, n3,) = nvs;
            v1 = n1;
            v2 = n2;
            v3 = n3;
            let progress = match rr {
                Ok(p) => p,
                Err(e) => {
                    assert(failed3::<T1, T2, T3, F>(cx, add_help, e)) by { reveal(failed3); }
                    proof {
                        if opt_error::<T1>(c_old, e) { lemma_opt_error_from::<T1>(cx, c_old, e); }
                        if opt_error::<T2>(c_old, e) { lemma_opt_error_from::<T2>(cx, c_old, e); }
                        if opt_error::<T3>(c_old, e) { lemma_opt_error_from::<T3>(cx, c_old, e); }
                    }
                    return Err(e);
                },
            };
            proof {
                lemma_trace_push3::<T1, T2, T3>(tr, start, k, vs_old, c_old, (v1, v2, v3,), ctx, progress);
                tr = tr.push(((v1, v2, v3,), ctx, progress));
                k = k + 1;
            }
            if !progress {
                assert(reach3::<T1, T2, T3>(start, k, (v1, v2, v3,), ctx, false)) by { reveal(reach3); }
                break;
            }
        }
        let ghost tail_cx = ctx;
        let ghost vs_end = (v1, v2, v3,);
        let rt = F::try_parse_self(ctx);
        let tail = match rt {
            Ok(t) => t,
            Err(e) => {
                assert(F::tail_takes(tail_cx, Err::<F, CliError>(e)));
                assert(reach3::<T1, T2, T3>(start, k, vs_end, tail_cx, false)) by { reveal(reach3); }
                assert(failed3::<T1, T2, T3, F>(cx, add_help, e)) by { reveal(failed3); }
                return Err(e);
            },
        };
        assert(F::tail_takes(tail_cx, Ok::<F, CliError>(tail)));
        let ghost gt = tail;
        let fr1 = T1::finalize(v1);
        let x1 = match fr1 {
            Ok(x) => x,
            Err(e) => {
                assert(T1::finalizes(vs_end.0, Err::<T1, CliError>(e)));
                assert(fin_err3::<T1, T2, T3>(vs_end, e)) by { reveal(fin_err3); }
                assert(reach3::<T1, T2, T3>(start, k, vs_end, tail_cx, false)) by { reveal(reach3); }
                assert(failed3::<T1, T2, T3, F>(cx, add_help, e)) by { reveal(failed3); }
                return Err(e);
            },
        };
        assert(T1::finalizes(vs_end.0, Ok::<T1, CliError>(x1)));
        let ghost gx1 = x1;
        let fr2 = T2::finalize(v2);
        let x2 = match fr2 {
            Ok(x) => x,
            Err(e) => {
                assert(T2::finalizes(vs_end.1, Err::<T2, CliError>(e)));
                assert(fin_err3::<T1, T2, T3>(vs_end, e)) by { reveal(fin_err3); }
                assert(reach3::<T1, T2, T3>(start, k, vs_end, tail_cx, false)) by { reveal(reach3); }
                assert(failed3::<T1, T2, T3, F>(cx, add_help, e)) by { reveal(failed3); }
                return Err(e);
            },
        };
        assert(T2::finalizes(vs_end.1, Ok::<T2, CliError>(x2)));
        let ghost gx2 = x2;
        let fr3 = T3::finalize(v3);
        let x3 = match fr3 {
            Ok(x) => x,
            Err(e) => {
                assert(T3::finalizes(vs_end.2, Err::<T3, CliError>(e)));
                assert(fin_err3::<T1, T2, T3>(vs_end, e)) by { reveal(fin_err3); }
                assert(reach3::<T1, T2, T3>(start, k, vs_end, tail_cx, false)) by { reveal(reach3); }
                assert(failed3::<T1, T2, T3, F>(cx, add_help, e)) by { reveal(failed3); }
                return Err(e);
            },
        };
        assert(T3::finalizes(vs_end.2, Ok::<T3, CliError>(x3)));
        let ghost gx3 = x3;
        callback(x1, x2, x3, tail);
        assert(call_ensures(callback, (gx1, gx2, gx3, gt), ()));
        assert(reach3::<T1, T2, T3>(start, k, vs_end, tail_cx, false)) by { reveal(reach3); }
        assert(done3::<C, T1, T2, T3, F>(callback, cx, add_help)) by { reveal(done3); }
        Ok(ParseOutcome::Done)
    }
}

/// The steps of one round over 4 option(s), given the contexts `d..`
/// between them and what each returned, `m..`.
#[verifier::opaque]
pub open spec fn round_by4<T1: Opt, T2: Opt, T3: Opt, T4: Opt>(vs: (Option<T1>, Option<T2>, Option<T3>, Option<T4>,), c: ParsingContext, ws: (Option<T1>, Option<T2>, Option<T3>, Option<T4>,), c2: ParsingContext, progress: bool, d1: ParsingContext, d2: ParsingContext, d3: ParsingContext, m1: bool, m2: bool, m3: bool, m4: bool) -> bool {
    &&& T1::takes(vs.0, c, Ok::<bool, CliError>(m1), ws.0, d1)
    &&& T2::takes(vs.1, d1, Ok::<bool, CliError>(m2), ws.1, d2)
    &&& T3::takes(vs.2, d2, Ok::<bool, CliError>(m3), ws.2, d3)
    &&& T4::takes(vs.3, d3, Ok::<bool, CliError>(m4), ws.3, c2)
    &&& progress == (m1 || m2 || m3 || m4)
}

/// One round over 4 option(s) from `c`: each is tried in order, from where
/// the one before stopped, and `progress` tells whether any of them took
/// something; `ws` are the values and `c2` the context after the round.
#[verifier::opaque]
pub open spec fn round4<T1: Opt, T2: Opt, T3: Opt, T4: Opt>(vs: (Option<T1>, Option<T2>, Option<T3>, Option<T4>,), c: ParsingContext, ws: (Option<T1>, Option<T2>, Option<T3>, Option<T4>,), c2: ParsingContext, progress: bool) -> bool {
    exists|d1: ParsingContext, d2: ParsingContext, d3: ParsingContext, m1: bool, m2: bool, m3: bool, m4: bool| #[trigger] round_by4::<T1, T2, T3, T4>(vs, c, ws, c2, progress, d1, d2, d3, m1, m2, m3, m4)
}

/// Step `i` of a trace of rounds over 4 option(s): the state before it
/// continues, and the round leads to the next state.
#[verifier::opaque]
pub open spec fn trace_step4<T1: Opt, T2: Opt, T3: Opt, T4: Opt>(tr: Seq<((Option<T1>, Option<T2>, Option<T3>, Option<T4>,), ParsingContext, bool)>, i: int) -> bool {
    tr[i].2 && round4::<T1, T2, T3, T4>(tr[i].0, tr[i].1, tr[i + 1].0, tr[i + 1].1, tr[i + 1].2)
}

/// `tr` records `k` rounds over 4 option(s) from `start`, ending with the
/// values `vs`, the context `c` and whether the last round took something.
#[verifier::opaque]
pub open spec fn trace4<T1: Opt, T2: Opt, T3: Opt, T4: Opt>(tr: Seq<((Option<T1>, Option<T2>, Option<T3>, Option<T4>,), ParsingContext, bool)>, start: ParsingContext, k: nat, vs: (Option<T1>, Option<T2>, Option<T3>, Option<T4>,), c: ParsingContext, progress: bool) -> bool {
    &&& tr.len() == k + 1
    &&& tr[0] == ((None::<T1>, None::<T2>, None::<T3>, None::<T4>,), start, true)
    &&& tr[k as int] == (vs, c, progress)
    &&& forall|i: int| 0 <= i < k ==> #[trigger] trace_step4::<T1, T2, T3, T4>(tr, i)
}

/// The values and the context after `k` rounds over 4 option(s) from
/// `start`, every round before the last having taken something;
/// `progress` tells whether the last round did.
#[verifier::opaque]
pub open spec fn reach4<T1: Opt, T2: Opt, T3: Opt, T4: Opt>(start: ParsingContext, k: nat, vs: (Option<T1>, Option<T2>, Option<T3>, Option<T4>,), c: ParsingContext, progress: bool) -> bool {
    exists|tr: Seq<((Option<T1>, Option<T2>, Option<T3>, Option<T4>,), ParsingContext, bool)>| #[trigger] trace4::<T1, T2, T3, T4>(tr, start, k, vs, c, progress)
}

/// The steps of a round over 4 option(s) that stops at option 1 with `e`.
#[verifier::opaque]
pub open spec fn round_err_by4_1<T1: Opt, T2: Opt, T3: Opt, T4: Opt>(vs: (Option<T1>, Option<T2>, Option<T3>, Option<T4>,), c: ParsingContext, e: CliError, ws: (Option<T1>, Option<T2>, Option<T3>, Option<T4>,), d1: ParsingContext) -> bool {
    T1::takes(vs.0, c, Err::<bool, CliError>(e), ws.0, d1)
}

/// A round over 4 option(s) from `c` stops at option 1 with the error
/// `e`: the options before it are taken in order, and it gives `e`.
#[verifier::opaque]
pub open spec fn round_err4_1<T1: Opt, T2: Opt, T3: Opt, T4: Opt>(vs: (Option<T1>, Option<T2>, Option<T3>, Option<T4>,), c: ParsingContext, e: CliError) -> bool {
    exists|ws: (Option<T1>, Option<T2>, Option<T3>, Option<T4>,), d1: ParsingContext| #[trigger] round_err_by4_1::<T1, T2, T3, T4>(vs, c, e, ws, d1)
}

/// The steps of a round over 4 option(s) that stops at option 2 with `e`.
#[verifier::opaque]
pub open spec fn round_err_by4_2<T1: Opt, T2: Opt, T3: Opt, T4: Opt>(vs: (Option<T1>, Option<T2>, Option<T3>, Option<T4>,), c: ParsingContext, e: CliError, ws: (Option<T1>, Option<T2>, Option<T3>, Option<T4>,), d1: ParsingContext, d2: ParsingContext, m1: bool) -> bool {
    T1::takes(vs.0, c, Ok::<bool, CliError>(m1), ws.0, d1) && T2::takes(vs.1, d1, Err::<bool, CliError>(e), ws.1, d2)
}

/// A round over 4 option(s) from `c` stops at option 2 with the error
/// `e`: the options before it are taken in order, and it gives `e`.
#[verifier::opaque]
pub open spec fn round_err4_2<T1: Opt, T2: Opt, T3: Opt, T4: Opt>(vs: (Option<T1>, Option<T2>, Option<T3>, Option<T4>,), c: ParsingContext, e: CliError) -> bool {
    exists|ws: (Option<T1>, Option<T2>, Option<T3>, Option<T4>,), d1: ParsingContext, d2: ParsingContext, m1: bool| #[trigger] round_err_by4_2::<T1, T2, T3, T4>(vs, c, e, ws, d1, d2, m1)
}

/// The steps of a round over 4 option(s) that stops at option 3 with `e`.
#[verifier::opaque]
pub open spec fn round_err_by4_3<T1: Opt, T2: Opt, T3: Opt, T4: Opt>(vs: (Option<T1>, Option<T2>, Option<T3>, Option<T4>,), c: ParsingContext, e: CliError, ws: (Option<T1>, Option<T2>, Option<T3>, Option<T4>,), d1: ParsingContext, d2: ParsingContext, d3: ParsingContext, m1: bool, m2: bool) -> bool {
    T1::takes(vs.0, c, Ok::<bool, CliError>(m1), ws.0, d1) && T2::takes(vs.1, d1, Ok::<bool, CliError>(m2), ws.1, d2) && T3::takes(vs.2, d2, Err::<bool, CliError>(e), ws.2, d3)
}

/// A round over 4 option(s) from `c` stops at option 3 with the error
/// `e`: the options before it are taken in order, and it gives `e`.
#[verifier::opaque]
pub open spec fn round_err4_3<T1: Opt, T2: Opt, T3: Opt, T4: Opt>(vs: (Option<T1>, Option<T2>, Option<T3>, Option<T4>,), c: ParsingContext, e: CliError) -> bool {
    exists|ws: (Option<T1>, Option<T2>, Option<T3>, Option<T4>,), d1: ParsingContext, d2: ParsingContext, d3: ParsingContext, m1: bool, m2: bool| #[trigger] round_err_by4_3::<T1, T2, T3, T4>(vs, c, e, ws, d1, d2, d3, m1, m2)
}

/// The steps of a round over 4 option(s) that stops at option 4 with `e`.
#[verifier::opaque]
pub open spec fn round_err_by4_4<T1: Opt, T2: Opt, T3: Opt, T4: Opt>(vs: (Option<T1>, Option<T2>, Option<T3>, Option<T4>,), c: ParsingContext, e: CliError, ws: (Option<T1>, Option<T2>, Option<T3>, Option<T4>,), d1: ParsingContext, d2: ParsingContext, d3: ParsingContext, d4: ParsingContext, m1: bool, m2: bool, m3: bool) -> bool {
    T1::takes(vs.0, c, Ok::<bool, CliError>(m1), ws.0, d1) && T2::takes(vs.1, d1, Ok::<bool, CliError>(m2), ws.1, d2) && T3::takes(vs.2, d2, Ok::<bool, CliError>(m3), ws.2, d3) && T4::takes(vs.3, d3, Err::<bool, CliError>(e), ws.3, d4)
}

/// A round over 4 option(s) from `c` stops at option 4 with the error
/// `e`: the options before it are taken in order, and it gives `e`.
#[verifier::opaque]
pub open spec fn round_err4_4<T1: Opt, T2: Opt, T3: Opt, T4: Opt>(vs: (Option<T1>, Option<T2>, Option<T3>, Option<T4>,), c: ParsingContext, e: CliError) -> bool {
    exists|ws: (Option<T1>, Option<T2>, Option<T3>, Option<T4>,), d1: ParsingContext, d2: ParsingContext, d3: ParsingContext, d4: ParsingContext, m1: bool, m2: bool, m3: bool| #[trigger] round_err_by4_4::<T1, T2, T3, T4>(vs, c, e, ws, d1, d2, d3, d4, m1, m2, m3)
}

/// A round over 4 option(s) from `c` stops with the error `e`.
#[verifier::opaque]
pub open spec fn round_err4<T1: Opt, T2: Opt, T3: Opt, T4: Opt>(vs: (Option<T1>, Option<T2>, Option<T3>, Option<T4>,), c: ParsingContext, e: CliError) -> bool {
    round_err4_1::<T1, T2, T3, T4>(vs, c, e) || round_err4_2::<T1, T2, T3, T4>(vs, c, e) || round_err4_3::<T1, T2, T3, T4>(vs, c, e) || round_err4_4::<T1, T2, T3, T4>(vs, c, e)
}

/// Taking the final values of 4 option(s) in order stops with the error
/// `e`: the values before the failing one are given, and it gives `e`.
#[verifier::opaque]
pub open spec fn fin_err4<T1: Opt, T2: Opt, T3: Opt, T4: Opt>(vs: (Option<T1>, Option<T2>, Option<T3>, Option<T4>,), e: CliError) -> bool {
    ||| T1::finalizes(vs.0, Err::<T1, CliError>(e))
    ||| exists|x1: T1|
        #![trigger T1::finalizes(vs.0, Ok::<T1, CliError>(x1))]
        T1::finalizes(vs.0, Ok::<T1, CliError>(x1)) && T2::finalizes(vs.1, Err::<T2, CliError>(e))
    ||| exists|x1: T1, x2: T2|
        #![trigger T1::finalizes(vs.0, Ok::<T1, CliError>(x1)), T2::finalizes(vs.1, Ok::<T2, CliError>(x2))]
        T1::finalizes(vs.0, Ok::<T1, CliError>(x1)) && T2::finalizes(vs.1, Ok::<T2, CliError>(x2)) && T3::finalizes(vs.2, Err::<T3, CliError>(e))
    ||| exists|x1: T1, x2: T2, x3: T3|
        #![trigger T1::finalizes(vs.0, Ok::<T1, CliError>(x1)), T2::finalizes(vs.1, Ok::<T2, CliError>(x2)), T3::finalizes(vs.2, Ok::<T3, CliError>(x3))]
        T1::finalizes(vs.0, Ok::<T1, CliError>(x1)) && T2::finalizes(vs.1, Ok::<T2, CliError>(x2)) && T3::finalizes(vs.2, Ok::<T3, CliError>(x3)) && T4::finalizes(vs.3, Err::<T4, CliError>(e))
}

/// `st` is where parsing 4 option(s) starts from `cx`: the same arguments
/// and cursor, with the options documented in order and, with `add_help`,
/// the help flag after them.
#[verifier::opaque]
pub open spec fn started4<T1: Opt, T2: Opt, T3: Opt, T4: Opt>(cx: ParsingContext, add_help: bool, st: ParsingContext) -> bool {
    &&& st.args == cx.args
    &&& st.cursor == cx.cursor
    &&& exists|s1: DocumentationStore, s2: DocumentationStore, s3: DocumentationStore, s4: DocumentationStore|
        #![trigger T1::documents(cx.documentation, s1), T2::documents(s1, s2), T3::documents(s2, s3), T4::documents(s3, s4)]
        T1::documents(cx.documentation, s1) && T2::documents(s1, s2) && T3::documents(s2, s3) && T4::documents(s3, s4) && if add_help { help_listed(s4, st.documentation) } else { st.documentation == s4 }
}

/// A trace of rounds over 4 option(s) grows by one round.
proof fn lemma_trace_push4<T1: Opt, T2: Opt, T3: Opt, T4: Opt>(tr: Seq<((Option<T1>, Option<T2>, Option<T3>, Option<T4>,), ParsingContext, bool)>, start: ParsingContext, k: nat, vs: (Option<T1>, Option<T2>, Option<T3>, Option<T4>,), c: ParsingContext, ws: (Option<T1>, Option<T2>, Option<T3>, Option<T4>,), c2: ParsingContext, p: bool)
    requires
        trace4::<T1, T2, T3, T4>(tr, start, k, vs, c, true),
        round4::<T1, T2, T3, T4>(vs, c, ws, c2, p),
    ensures
        trace4::<T1, T2, T3, T4>(tr.push((ws, c2, p)), start, k + 1, ws, c2, p),
{
    reveal(trace4);
    reveal(trace_step4);
    let tr2 = tr.push((ws, c2, p));
    assert forall|i: int| 0 <= i < k + 1 implies #[trigger] trace_step4::<T1, T2, T3, T4>(tr2, i) by {
        if i < k {
            assert(tr2[i] == tr[i]);
            assert(tr2[i + 1] == tr[i + 1]);
            assert(trace_step4::<T1, T2, T3, T4>(tr, i));
        } else {
            assert(tr2[i] == (vs, c, true));
        }
    }
}

/// Tries 4 option(s) once each, in order, each from where the one before
/// stopped; gives whether any of them took something, or the first error,
/// with the values and the context after the round.
fn take_round4<T1: Opt, T2: Opt, T3: Opt, T4: Opt>(vs: (Option<T1>, Option<T2>, Option<T3>, Option<T4>,), cx: ParsingContext) -> (r: (Result<bool, CliError>, (Option<T1>, Option<T2>, Option<T3>, Option<T4>,), ParsingContext))
    requires
        cx.cursor <= cx.args@.len(),
        cx.documentation.wf(),
    ensures
        r.2.cursor <= r.2.args@.len(),
        r.2.args@ == cx.args@,
        r.2.documentation == cx.documentation,
        r.0 is Ok ==> r.2.cursor >= cx.cursor,
        r.0 matches Ok(true) ==> r.2.cursor > cx.cursor,
        r.0 matches Ok(false) ==> r.2.cursor == cx.cursor,
        r.0 matches Ok(false) ==> vs.0.is_some() == r.1.0.is_some(),
        r.0 matches Ok(false) ==> vs.1.is_some() == r.1.1.is_some(),
        r.0 matches Ok(false) ==> vs.2.is_some() == r.1.2.is_some(),
        r.0 matches Ok(false) ==> vs.3.is_some() == r.1.3.is_some(),
        r.0 matches Ok(p) ==> round4::<T1, T2, T3, T4>(vs, cx, r.1, r.2, p),
        r.0 matches Err(e) ==> round_err4::<T1, T2, T3, T4>(vs, cx, e),
        r.0 matches Err(e) ==> (opt_error::<T1>(cx, e) || opt_error::<T2>(cx, e) || opt_error::<T3>(cx, e) || opt_error::<T4>(cx, e)),
{
    let ghost c0 = cx;
    let mut cx = cx;
    let (mut v1, mut v2, mut v3, mut v4,) = vs;
    let r1 = T1::try_parse_self(&mut v1, &mut cx);
    let m1 = match r1 {
        Ok(m) => m,
        Err(e) => {
            proof {
                assert(T1::takes(vs.0, c0, Err::<bool, CliError>(e), v1, cx));
                assert(after_options(c0, c0));
                assert(opt_error::<T1>(c0, e));
                let ws = (v1, v2, v3, v4,);
                assert(round_err_by4_1::<T1, T2, T3, T4>(vs, c0, e, ws, cx)) by { reveal(round_err_by4_1); }
                assert(round_err4_1::<T1, T2, T3, T4>(vs, c0, e)) by { reveal(round_err4_1); }
                assert(round_err4::<T1, T2, T3, T4>(vs, c0, e)) by { reveal(round_err4); }
            }
            return (Err(e), (v1, v2, v3, v4,), cx);
        },
    };
    let ghost a1 = v1;
    let ghost c1 = cx;
    let r2 = T2::try_parse_self(&mut v2, &mut cx);
    let m2 = match r2 {
        Ok(m) => m,
        Err(e) => {
            proof {
                assert(T2::takes(vs.1, c1, Err::<bool, CliError>(e), v2, cx));
                assert(after_options(c0, c1));
                assert(opt_error::<T2>(c0, e));
                let ws = (a1, v2, v3, v4,);
                assert(round_err_by4_2::<T1, T2, T3, T4>(vs, c0, e, ws, c1, cx, m1)) by { reveal(round_err_by4_2); }
                assert(round_err4_2::<T1, T2, T3, T4>(vs, c0, e)) by { reveal(round_err4_2); }
                assert(round_err4::<T1, T2, T3, T4>(vs, c0, e)) by { reveal(round_err4); }
            }
            return (Err(e), (v1, v2, v3, v4,), cx);
        },
    };
    let ghost a2 = v2;
    let ghost c2 = cx;
    let r3 = T3::try_parse_self(&mut v3, &mut cx);
    let m3 = match r3 {
        Ok(m) => m,
        Err(e) => {
            proof {
                assert(T3::takes(vs.2, c2, Err::<bool, CliError>(e), v3, cx));
                assert(after_options(c0, c2));
                assert(opt_error::<T3>(c0, e));
                let ws = (a1, a2, v3, v4,);
                assert(round_err_by4_3::<T1, T2, T3, T4>(vs, c0, e, ws, c1, c2, cx, m1, m2)) by { reveal(round_err_by4_3); }
                assert(round_err4_3::<T1, T2, T3, T4>(vs, c0, e)) by { reveal(round_err4_3); }
                assert(round_err4::<T1, T2, T3, T4>(vs, c0, e)) by { reveal(round_err4); }
            }
            return (Err(e), (v1, v2, v3, v4,), cx);
        },
    };
    let ghost a3 = v3;
    let ghost c3 = cx;
    let r4 = T4::try_parse_self(&mut v4, &mut cx);
    let m4 = match r4 {
        Ok(m) => m,
        Err(e) => {
            proof {
                assert(T4::takes(vs.3, c3, Err::<bool, CliError>(e), v4, cx));
                assert(after_options(c0, c3));
                assert(opt_error::<T4>(c0, e));
                let ws = (a1, a2, a3, v4,);
                assert(round_err_by4_4::<T1, T2, T3, T4>(vs, c0, e, ws, c1, c2, c3, cx, m1, m2, m3)) by { reveal(round_err_by4_4); }
                assert(round_err4_4::<T1, T2, T3, T4>(vs, c0, e)) by { reveal(round_err4_4); }
                assert(round_err4::<T1, T2, T3, T4>(vs, c0, e)) by { reveal(round_err4); }
            }
            return (Err(e), (v1, v2, v3, v4,), cx);
        },
    };
    let ghost a4 = v4;
    let ghost c4 = cx;
    proof {
        assert(round_by4::<T1, T2, T3, T4>(vs, c0, (a1, a2, a3, a4,), c4, m1 || m2 || m3 || m4, c1, c2, c3, m1, m2, m3, m4)) by { reveal(round_by4); }
        assert(round4::<T1, T2, T3, T4>(vs, c0, (a1, a2, a3, a4,), c4, m1 || m2 || m3 || m4)) by { reveal(round4); }
    }
    (Ok(m1 || m2 || m3 || m4), (v1, v2, v3, v4,), cx)
}

/// Parsing 4 option(s) from `cx` ended well: rounds ran until one took
/// nothing, the remaining arguments gave the tail, and `cb` was called with
/// the final values of what the rounds took and with the tail.
#[verifier::opaque]
pub open spec fn done4<C: FnOnce(T1, T2, T3, T4, F), T1: Opt, T2: Opt, T3: Opt, T4: Opt, F: FinalOpt>(cb: C, cx: ParsingContext, add_help: bool) -> bool {
    exists|st: ParsingContext, k: nat, vs: (Option<T1>, Option<T2>, Option<T3>, Option<T4>,), c: ParsingContext, x1: T1, x2: T2, x3: T3, x4: T4, t: F|
        #![trigger reach4::<T1, T2, T3, T4>(st, k, vs, c, false), T1::finalizes(vs.0, Ok::<T1, CliError>(x1)), T2::finalizes(vs.1, Ok::<T2, CliError>(x2)), T3::finalizes(vs.2, Ok::<T3, CliError>(x3)), T4::finalizes(vs.3, Ok::<T4, CliError>(x4)), F::tail_takes(c, Ok::<F, CliError>(t))]
        started4::<T1, T2, T3, T4>(cx, add_help, st) && reach4::<T1, T2, T3, T4>(st, k, vs, c, false) && after_options(cx, c) && F::tail_takes(c, Ok::<F, CliError>(t)) && T1::finalizes(vs.0, Ok::<T1, CliError>(x1)) && T2::finalizes(vs.1, Ok::<T2, CliError>(x2)) && T3::finalizes(vs.2, Ok::<T3, CliError>(x3)) && T4::finalizes(vs.3, Ok::<T4, CliError>(x4)) && call_ensures(cb, (x1, x2, x3, x4, t), ())
}

/// `d` is the documentation of 4 option(s), listed in order after that of
/// `cx`, and then of the help flag.
#[verifier::opaque]
pub open spec fn helped4<T1: Opt, T2: Opt, T3: Opt, T4: Opt>(cx: ParsingContext, d: DocumentationStore) -> bool {
    exists|s1: DocumentationStore, s2: DocumentationStore, s3: DocumentationStore, s4: DocumentationStore|
        #![trigger T1::documents(cx.documentation, s1), T2::documents(s1, s2), T3::documents(s2, s3), T4::documents(s3, s4)]
        T1::documents(cx.documentation, s1) && T2::documents(s1, s2) && T3::documents(s2, s3) && T4::documents(s3, s4) && help_listed(s4, d)
}

/// Parsing 4 option(s) from `cx` failed with `e`: a round stopped with it,
/// or, once the rounds ended, the remaining arguments or a final value gave it.
#[verifier::opaque]
pub open spec fn failed4<T1: Opt, T2: Opt, T3: Opt, T4: Opt, F: FinalOpt>(cx: ParsingContext, add_help: bool, e: CliError) -> bool {
    exists|st: ParsingContext, k: nat, vs: (Option<T1>, Option<T2>, Option<T3>, Option<T4>,), c: ParsingContext, p: bool|
        #![trigger reach4::<T1, T2, T3, T4>(st, k, vs, c, p)]
        started4::<T1, T2, T3, T4>(cx, add_help, st) && reach4::<T1, T2, T3, T4>(st, k, vs, c, p) && if p {
            round_err4::<T1, T2, T3, T4>(vs, c, e)
        } else {
            F::tail_takes(c, Err::<F, CliError>(e)) || (exists|t: F| #[trigger] F::tail_takes(c, Ok::<F, CliError>(t)) && fin_err4::<T1, T2, T3, T4>(vs, e))
        }
}

impl<C: FnOnce(T1, T2, T3, T4, F), T1: Opt, T2: Opt, T3: Opt, T4: Opt, F: FinalOpt> ParsingCallback<(T1, T2, T3, T4, F)> for C {
    open spec fn accepts_all(&self) -> bool {
        forall|a: T1, b: T2, c: T3, d: T4, t: F| call_requires(*self, (a, b, c, d, t))
    }

    /// Done: rounds over the options ran until one took nothing, the remaining
    /// arguments gave the tail, and the callback was called with the final
    /// values of what the rounds took. Help: the documentation of the options
    /// and of the help flag. An error: the one a round, the tail or a final
    /// value gave, at the point the rounds reached.
    open spec fn outcome(&self, cx: ParsingContext, add_help: bool, r: Result<ParseOutcome, CliError>) -> bool {
        match r {
            Ok(ParseOutcome::Done) => done4::<C, T1, T2, T3, T4, F>(*self, cx, add_help),
            Ok(ParseOutcome::Help(d)) => add_help && helped4::<T1, T2, T3, T4>(cx, d),
            Err(e) => failed4::<T1, T2, T3, T4, F>(cx, add_help, e) && (opt_error::<T1>(cx, e) || opt_error::<T2>(cx, e) || opt_error::<T3>(cx, e) || opt_error::<T4>(cx, e) || tail_error::<F>(cx, e)),
        }
    }

    fn process(cx: ParsingContext, callback: Self, add_help: bool) -> (r: Result<ParseOutcome, CliError>) {
        let mut ctx = cx;
        T1::add_documentation(&mut ctx.documentation);
        let ghost s1 = ctx.documentation;
        T2::add_documentation(&mut ctx.documentation);
        let ghost s2 = ctx.documentation;
        T3::add_documentation(&mut ctx.documentation);
        let ghost s3 = ctx.documentation;
        T4::add_documentation(&mut ctx.documentation);
        let ghost s4 = ctx.documentation;
        document_help(&mut ctx, add_help);
        let ghost start = ctx;
        assert(cx.next_arg() == start.next_arg());
        assert(started4::<T1, T2, T3, T4>(cx, add_help, start)) by { reveal(started4); }
        proof {
            if add_help {
                assert(help_listed(s4, start.documentation));
                assert(helped4::<T1, T2, T3, T4>(cx, start.documentation)) by { reveal(helped4); }
                assert(callback.outcome(cx, add_help, Ok(ParseOutcome::Help(start.documentation))));
            }
        }
        let ghost wants_help = add_help && next_names(cx, help_names());
        let mut v1: Option<T1> = None;
        let mut v2: Option<T2> = None;
        let mut v3: Option<T3> = None;
        let mut v4: Option<T4> = None;
        let ghost mut k: nat = 0;
        let ghost mut tr: Seq<((Option<T1>, Option<T2>, Option<T3>, Option<T4>,), ParsingContext, bool)> = seq![((v1, v2, v3, v4,), start, true)];
        assert(trace4::<T1, T2, T3, T4>(tr, start, 0, (v1, v2, v3, v4,), ctx, true)) by { reveal(trace4); }
        loop
            invariant_except_break
                trace4::<T1, T2, T3, T4>(tr, start, k, (v1, v2, v3, v4,), ctx, true),
            invariant
                ctx.cursor <= ctx.args@.len(),
                ctx.documentation.wf(),
                ctx.documentation == start.documentation,
                ctx.args@ == start.args@,
                start.args@ == cx.args@,
                start.cursor == cx.cursor,
                ctx.cursor >= start.cursor,
                wants_help == (add_help && next_names(start, help_names())),
                wants_help == (add_help && next_names(cx, help_names())),
                wants_help ==> ctx.cursor == start.cursor,
                ctx.cursor == start.cursor ==> v1.is_none() && v2.is_none() && v3.is_none() && v4.is_none(),
                add_help ==> callback.outcome(cx, add_help, Ok(ParseOutcome::Help(start.documentation))),
                started4::<T1, T2, T3, T4>(cx, add_help, start),
            ensures
                !wants_help,
                started4::<T1, T2, T3, T4>(cx, add_help, start),
                reach4::<T1, T2, T3, T4>(start, k, (v1, v2, v3, v4,), ctx, false),
                ctx.cursor <= ctx.args@.len(),
                ctx.args@ == cx.args@,
                ctx.cursor >= cx.cursor,
            decreases ctx.args@.len() - ctx.cursor,
        {
            let ghost at_start = ctx;
            proof {
                if wants_help {
                    assert(at_start.next_arg() == start.next_arg());
                }
            }
            if help_asked(&mut ctx, add_help) {
                return Ok(ParseOutcome::Help(ctx.documentation));
            }
            assert(!wants_help);
            let ghost vs_old = (v1, v2, v3, v4,);
            let ghost c_old = ctx;
            assert(trace4::<T1, T2, T3, T4>(tr, start, k, vs_old, c_old, true));
            assert(reach4::<T1, T2, T3, T4>(start, k, vs_old, c_old, true)) by { reveal(reach4); }
            let (rr, nvs, ncx) = take_round4::<T1, T2, T3, T4>((v1, v2, v3, v4,), ctx);
            ctx = ncx;
            let (n1, n2, n3, n4,) = nvs;
            v1 = n1;
            v2 = n2;
            v3 = n3;
            v4 = n4;
            let progress = match rr {
                Ok(p) => p,
                Err(e) => {
                    assert(failed4::<T1, T2, T3, T4, F>(cx, add_help, e)) by { reveal(failed4); }
                    proof {
                        if opt_error::<T1>(c_old, e) { lemma_opt_error_from::<T1>(cx, c_old, e); }
                        if opt_error::<T2>(c_old, e) { lemma_opt_error_from::<T2>(cx, c_old, e); }
                        if opt_error::<T3>(c_old, e) { lemma_opt_error_from::<T3>(cx, c_old, e); }
                        if opt_error::<T4>(c_old, e) { lemma_opt_error_from::<T4>(cx, c_old, e); }
                    }
                    return Err(e);
                },
            };
            proof {
                lemma_trace_push4::<T1, T2, T3, T4>(tr, start, k, vs_old, c_old, (v1, v2, v3, v4,), ctx, progress);
                tr = tr.push(((v1, v2, v3, v4,), ctx, progress));
                k = k + 1;
            }
            if !progress {
                assert(reach4::<T1, T2, T3, T4>(start, k, (v1, v2, v3, v4,), ctx, false)) by { reveal(reach4); }
                break;
            }
        }
        let ghost tail_cx = ctx;
        let ghost vs_end = (v1, v2, v3, v4,);
        let rt = F::try_parse_self(ctx);
        let tail = match rt {
            Ok(t) => t,
            Err(e) => {
                assert(F::tail_takes(tail_cx, Err::<F, CliError>(e)));
                assert(reach4::<T1, T2, T3, T4>(start, k, vs_end, tail_cx, false)) by { reveal(reach4); }
                assert(failed4::<T1, T2, T3, T4, F>(cx, add_help, e)) by { reveal(failed4); }
                return Err(e);
            },
        };
        assert(F::tail_takes(tail_cx, Ok::<F, CliError>(tail)));
        let ghost gt = tail;
        let fr1 = T1::finalize(v1);
        let x1 = match fr1 {
            Ok(x) => x,
            Err(e) => {
                assert(T1::finalizes(vs_end.0, Err::<T1, CliError>(e)));
                assert(fin_err4::<T1, T2, T3, T4>(vs_end, e)) by { reveal(fin_err4); }
                assert(reach4::<T1, T2, T3, T4>(start, k, vs_end, tail_cx, false)) by { reveal(reach4); }
                assert(failed4::<T1, T2, T3, T4, F>(cx, add_help, e)) by { reveal(failed4); }
                return Err(e);
            },
        };
        assert(T1::finalizes(vs_end.0, Ok::<T1, CliError>(x1)));
        let ghost gx1 = x1;
        let fr2 = T2::finalize(v2);
        let x2 = match fr2 {
            Ok(x) => x,
            Err(e) => {
                assert(T2::finalizes(vs_end.1, Err::<T2, CliError>(e)));
                assert(fin_err4::<T1, T2, T3, T4>(vs_end, e)) by { reveal(fin_err4); }
                assert(reach4::<T1, T2, T3, T4>(start, k, vs_end, tail_cx, false)) by { reveal(reach4); }
                assert(failed4::<T1, T2, T3, T4, F>(cx, add_help, e)) by { reveal(failed4); }
                return Err(e);
            },
        };
        assert(T2::finalizes(vs_end.1, Ok::<T2, CliError>(x2)));
        let ghost gx2 = x2;
        let fr3 = T3::finalize(v3);
        let x3 = match fr3 {
            Ok(x) => x,
            Err(e) => {
                assert(T3::finalizes(vs_end.2, Err::<T3, CliError>(e)));
                assert(fin_err4::<T1, T2, T3, T4>(vs_end, e)) by { reveal(fin_err4); }
                assert(reach4::<T1, T2, T3, T4>(start, k, vs_end, tail_cx, false)) by { reveal(reach4); }
                assert(failed4::<T1, T2, T3, T4, F>(cx, add_help, e)) by { reveal(failed4); }
                return Err(e);
            },
        };
        assert(T3::finalizes(vs_end.2, Ok::<T3, CliError>(x3)));
        let ghost gx3 = x3;
        let fr4 = T4::finalize(v4);
        let x4 = match fr4 {
            Ok(x) => x,
            Err(e) => {
                assert(T4::finalizes(vs_end.3, Err::<T4, CliError>(e)));
                assert(fin_err4::<T1, T2, T3, T4>(vs_end, e)) by { reveal(fin_err4); }
                assert(reach4::<T1, T2, T3, T4>(start, k, vs_end, tail_cx, false)) by { reveal(reach4); }
                assert(failed4::<T1, T2, T3, T4, F>(cx, add_help, e)) by { reveal(failed4); }
                return Err(e);
            },
        };
        assert(T4::finalizes(vs_end.3, Ok::<T4, CliError>(x4)));
        let ghost gx4 = x4;
        callback(x1, x2, x3, x4, tail);
        assert(call_ensures(callback, (gx1, gx2, gx3, gx4, gt), ()));
        assert(reach4::<T1, T2, T3, T4>(start, k, vs_end, tail_cx, false)) by { reveal(reach4); }
        assert(done4::<C, T1, T2, T3, T4, F>(callback, cx, add_help)) by { reveal(done4); }
        Ok(ParseOutcome::Done)
    }
}

/// The steps of one round over 5 option(s), given the contexts `d..`
/// between them and what each returned, `m..`.
#[verifier::opaque]
pub open spec fn round_by5<T1: Opt, T2: Opt, T3: Opt, T4: Opt, T5: Opt>(vs: (Option<T1>, Option<T2>, Option<T3>, Option<T4>, Option<T5>,), c: ParsingContext, ws: (Option<T1>, Option<T2>, Option<T3>, Option<T4>, Option<T5>,), c2: ParsingContext, progress: bool, d1: ParsingContext, d2: ParsingContext, d3: ParsingContext, d4: ParsingContext, m1: bool, m2: bool, m3: bool, m4: bool, m5: bool) -> bool {
    &&& T1::takes(vs.0, c, Ok::<bool, CliError>(m1), ws.0, d1)
    &&& T2::takes(vs.1, d1, Ok::<bool, CliError>(m2), ws.1, d2)
    &&& T3::takes(vs.2, d2, Ok::<bool, CliError>(m3), ws.2, d3)
    &&& T4::takes(vs.3, d3, Ok::<bool, CliError>(m4), ws.3, d4)
    &&& T5::takes(vs.4, d4, Ok::<bool, CliError>(m5), ws.4, c2)
    &&& progress == (m1 || m2 || m3 || m4 || m5)
}

/// One round over 5 option(s) from `c`: each is tried in order, from where
/// the one before stopped, and `progress` tells whether any of them took
/// something; `ws` are the values and `c2` the context after the round.
#[verifier::opaque]
pub open spec fn round5<T1: Opt, T2: Opt, T3: Opt, T4: Opt, T5: Opt>(vs: (Option<T1>, Option<T2>, Option<T3>, Option<T4>, Option<T5>,), c: ParsingContext, ws: (Option<T1>, Option<T2>, Option<T3>, Option<T4>, Option<T5>,), c2: ParsingContext, progress: bool) -> bool {
    exists|d1: ParsingContext, d2: ParsingContext, d3: ParsingContext, d4: ParsingContext, m1: bool, m2: bool, m3: bool, m4: bool, m5: bool| #[trigger] round_by5::<T1, T2, T3, T4, T5>(vs, c, ws, c2, progress, d1, d2, d3, d4, m1, m2, m3, m4, m5)
}

/// Step `i` of a trace of rounds over 5 option(s): the state before it
/// continues, and the round leads to the next state.
#[verifier::opaque]
pub open spec fn trace_step5<T1: Opt, T2: Opt, T3: Opt, T4: Opt, T5: Opt>(tr: Seq<((Option<T1>, Option<T2>, Option<T3>, Option<T4>, Option<T5>,), ParsingContext, bool)>, i: int) -> bool {
    tr[i].2 && round5::<T1, T2, T3, T4, T5>(tr[i].0, tr[i].1, tr[i + 1].0, tr[i + 1].1, tr[i + 1].2)
}

/// `tr` records `k` rounds over 5 option(s) from `start`, ending with the
/// values `vs`, the context `c` and whether the last round took something.
#[verifier::opaque]
pub open spec fn trace5<T1: Opt, T2: Opt, T3: Opt, T4: Opt, T5: Opt>(tr: Seq<((Option<T1>, Option<T2>, Option<T3>, Option<T4>, Option<T5>,), ParsingContext, bool)>, start: ParsingContext, k: nat, vs: (Option<T1>, Option<T2>, Option<T3>, Option<T4>, Option<T5>,), c: ParsingContext, progress: bool) -> bool {
    &&& tr.len() == k + 1
    &&& tr[0] == ((None::<T1>, None::<T2>, None::<T3>, None::<T4>, None::<T5>,), start, true)
    &&& tr[k as int] == (vs, c, progress)
    &&& forall|i: int| 0 <= i < k ==> #[trigger] trace_step5::<T1, T2, T3, T4, T5>(tr, i)
}

/// The values and the context after `k` rounds over 5 option(s) from
/// `start`, every round before the last having taken something;
/// `progress` tells whether the last round did.
#[verifier::opaque]
pub open spec fn reach5<T1: Opt, T2: Opt, T3: Opt, T4: Opt, T5: Opt>(start: ParsingContext, k: nat, vs: (Option<T1>, Option<T2>, Option<T3>, Option<T4>, Option<T5>,), c: ParsingContext, progress: bool) -> bool {
    exists|tr: Seq<((Option<T1>, Option<T2>, Option<T3>, Option<T4>, Option<T5>,), ParsingContext, bool)>| #[trigger] trace5::<T1, T2, T3, T4, T5>(tr, start, k, vs, c, progress)
}

/// The steps of a round over 5 option(s) that stops at option 1 with `e`.
#[verifier::opaque]
pub open spec fn round_err_by5_1<T1: Opt, T2: Opt, T3: Opt, T4: Opt, T5: Opt>(vs: (Option<T1>, Option<T2>, Option<T3>, Option<T4>, Option<T5>,), c: ParsingContext, e: CliError, ws: (Option<T1>, Option<T2>, Option<T3>, Option<T4>, Option<T5>,), d1: ParsingContext) -> bool {
    T1::takes(vs.0, c, Err::<bool, CliError>(e), ws.0, d1)
}

/// A round over 5 option(s) from `c` stops at option 1 with the error
/// `e`: the options before it are taken in order, and it gives `e`.
#[verifier::opaque]
pub open spec fn round_err5_1<T1: Opt, T2: Opt, T3: Opt, T4: Opt, T5: Opt>(vs: (Option<T1>, Option<T2>, Option<T3>, Option<T4>, Option<T5>,), c: ParsingContext, e: CliError) -> bool {
    exists|ws: (Option<T1>, Option<T2>, Option<T3>, Option<T4>, Option<T5>,), d1: ParsingContext| #[trigger] round_err_by5_1::<T1, T2, T3, T4, T5>(vs, c, e, ws, d1)
}

/// The steps of a round over 5 option(s) that stops at option 2 with `e`.
#[verifier::opaque]
pub open spec fn round_err_by5_2<T1: Opt, T2: Opt, T3: Opt, T4: Opt, T5: Opt>(vs: (Option<T1>, Option<T2>, Option<T3>, Option<T4>, Option<T5>,), c: ParsingContext, e: CliError, ws: (Option<T1>, Option<T2>, Option<T3>, Option<T4>, Option<T5>,), d1: ParsingContext, d2: ParsingContext, m1: bool) -> bool {
    T1::takes(vs.0, c, Ok::<bool, CliError>(m1), ws.0, d1) && T2::takes(vs.1, d1, Err::<bool, CliError>(e), ws.1, d2)
}

/// A round over 5 option(s) from `c` stops at option 2 with the error
/// `e`: the options before it are taken in order, and it gives `e`.
#[verifier::opaque]
pub open spec fn round_err5_2<T1: Opt, T2: Opt, T3: Opt, T4: Opt, T5: Opt>(vs: (Option<T1>, Option<T2>, Option<T3>, Option<T4>, Option<T5>,), c: ParsingContext, e: CliError) -> bool {
    exists|ws: (Option<T1>, Option<T2>, Option<T3>, Option<T4>, Option<T5>,), d1: ParsingContext, d2: ParsingContext, m1: bool| #[trigger] round_err_by5_2::<T1, T2, T3, T4, T5>(vs, c, e, ws, d1, d2, m1)
}

/// The steps of a round over 5 option(s) that stops at option 3 with `e`.
#[verifier::opaque]
pub open spec fn round_err_by5_3<T1: Opt, T2: Opt, T3: Opt, T4: Opt, T5: Opt>(vs: (Option<T1>, Option<T2>, Option<T3>, Option<T4>, Option<T5>,), c: ParsingContext, e: CliError, ws: (Option<T1>, Option<T2>, Option<T3>, Option<T4>, Option<T5>,), d1: ParsingContext, d2: ParsingContext, d3: ParsingContext, m1: bool, m2: bool) -> bool {
    T1::takes(vs.0, c, Ok::<bool, CliError>(m1), ws.0, d1) && T2::takes(vs.1, d1, Ok::<bool, CliError>(m2), ws.1, d2) && T3::takes(vs.2, d2, Err::<bool, CliError>(e), ws.2, d3)
}

/// A round over 5 option(s) from `c` stops at option 3 with the error
/// `e`: the options before it are taken in order, and it gives `e`.
#[verifier::opaque]
pub open spec fn round_err5_3<T1: Opt, T2: Opt, T3: Opt, T4: Opt, T5: Opt>(vs: (Option<T1>, Option<T2>, Option<T3>, Option<T4>, Option<T5>,), c: ParsingContext, e: CliError) -> bool {
    exists|ws: (Option<T1>, Option<T2>, Option<T3>, Option<T4>, Option<T5>,), d1: ParsingContext, d2: ParsingContext, d3: ParsingContext, m1: bool, m2: bool| #[trigger] round_err_by5_3::<T1, T2, T3, T4, T5>(vs, c, e, ws, d1, d2, d3, m1, m2)
}

/// The steps of a round over 5 option(s) that stops at option 4 with `e`.
#[verifier::opaque]
pub open spec fn round_err_by5_4<T1: Opt, T2: Opt, T3: Opt, T4: Opt, T5: Opt>(vs: (Option<T1>, Option<T2>, Option<T3>, Option<T4>, Option<T5>,), c: ParsingContext, e: CliError, ws: (Option<T1>, Option<T2>, Option<T3>, Option<T4>, Option<T5>,), d1: ParsingContext, d2: ParsingContext, d3: ParsingContext, d4: ParsingContext, m1: bool, m2: bool, m3: bool) -> bool {
    T1::takes(vs.0, c, Ok::<bool, CliError>(m1), ws.0, d1) && T2::takes(vs.1, d1, Ok::<bool, CliError>(m2), ws.1, d2) && T3::takes(vs.2, d2, Ok::<bool, CliError>(m3), ws.2, d3) && T4::takes(vs.3, d3, Err::<bool, CliError>(e), ws.3, d4)
}

/// A round over 5 option(s) from `c` stops at option 4 with the error
/// `e`: the options before it are taken in order, and it gives `e`.
#[verifier::opaque]
pub open spec fn round_err5_4<T1: Opt, T2: Opt, T3: Opt, T4: Opt, T5: Opt>(vs: (Option<T1>, Option<T2>, Option<T3>, Option<T4>, Option<T5>,), c: ParsingContext, e: CliError) -> bool {
    exists|ws: (Option<T1>, Option<T2>, Option<T3>, Option<T4>, Option<T5>,), d1: ParsingContext, d2: ParsingContext, d3: ParsingContext, d4: ParsingContext, m1: bool, m2: bool, m3: bool| #[trigger] round_err_by5_4::<T1, T2, T3, T4, T5>(vs, c, e, ws, d1, d2, d3, d4, m1, m2, m3)
}

/// The steps of a round over 5 option(s) that stops at option 5 with `e`.
#[verifier::opaque]
pub open spec fn round_err_by5_5<T1: Opt, T2: Opt, T3: Opt, T4: Opt, T5: Opt>(vs: (Option<T1>, Option<T2>, Option<T3>, Option<T4>, Option<T5>,), c: ParsingContext, e: CliError, ws: (Option<T1>, Option<T2>, Option<T3>, Option<T4>, Option<T5>,), d1: ParsingContext, d2: ParsingContext, d3: ParsingContext, d4: ParsingContext, d5: ParsingContext, m1: bool, m2: bool, m3: bool, m4: bool) -> bool {
    T1::takes(vs.0, c, Ok::<bool, CliError>(m1), ws.0, d1) && T2::takes(vs.1, d1, Ok::<bool, CliError>(m2), ws.1, d2) && T3::takes(vs.2, d2, Ok::<bool, CliError>(m3), ws.2, d3) && T4::takes(vs.3, d3, Ok::<bool, CliError>(m4), ws.3, d4) && T5::takes(vs.4, d4, Err::<bool, CliError>(e), ws.4, d5)
}

/// A round over 5 option(s) from `c` stops at option 5 with the error
/// `e`: the options before it are taken in order, and it gives `e`.
#[verifier::opaque]
pub open spec fn round_err5_5<T1: Opt, T2: Opt, T3: Opt, T4: Opt, T5: Opt>(vs: (Option<T1>, Option<T2>, Option<T3>, Option<T4>, Option<T5>,), c: ParsingContext, e: CliError) -> bool {
    exists|ws: (Option<T1>, Option<T2>, Option<T3>, Option<T4>, Option<T5>,), d1: ParsingContext, d2: ParsingContext, d3: ParsingContext, d4: ParsingContext, d5: ParsingContext, m1: bool, m2: bool, m3: bool, m4: bool| #[trigger] round_err_by5_5::<T1, T2, T3, T4, T5>(vs, c, e, ws, d1, d2, d3, d4, d5, m1, m2, m3, m4)
}

/// A round over 5 option(s) from `c` stops with the error `e`.
#[verifier::opaque]
pub open spec fn round_err5<T1: Opt, T2: Opt, T3: Opt, T4: Opt, T5: Opt>(vs: (Option<T1>, Option<T2>, Option<T3>, Option<T4>, Option<T5>,), c: ParsingContext, e: CliError) -> bool {
    round_err5_1::<T1, T2, T3, T4, T5>(vs, c, e) || round_err5_2::<T1, T2, T3, T4, T5>(vs, c, e) || round_err5_3::<T1, T2, T3, T4, T5>(vs, c, e) || round_err5_4::<T1, T2, T3, T4, T5>(vs, c, e) || round_err5_5::<T1, T2, T3, T4, T5>(vs, c, e)
}

/// Taking the final values of 5 option(s) in order stops with the error
/// `e`: the values before the failing one are given, and it gives `e`.
#[verifier::opaque]
pub open spec fn fin_err5<T1: Opt, T2: Opt, T3: Opt, T4: Opt, T5: Opt>(vs: (Option<T1>, Option<T2>, Option<T3>, Option<T4>, Option<T5>,), e: CliError) -> bool {
    ||| T1::finalizes(vs.0, Err::<T1, CliError>(e))
    ||| exists|x1: T1|
        #![trigger T1::finalizes(vs.0, Ok::<T1, CliError>(x1))]
        T1::finalizes(vs.0, Ok::<T1, CliError>(x1)) && T2::finalizes(vs.1, Err::<T2, CliError>(e))
    ||| exists|x1: T1, x2: T2|
        #![trigger T1::finalizes(vs.0, Ok::<T1, CliError>(x1)), T2::finalizes(vs.1, Ok::<T2, CliError>(x2))]
        T1::finalizes(vs.0, Ok::<T1, CliError>(x1)) && T2::finalizes(vs.1, Ok::<T2, CliError>(x2)) && T3::finalizes(vs.2, Err::<T3, CliError>(e))
    ||| exists|x1: T1, x2: T2, x3: T3|
        #![trigger T1::finalizes(vs.0, Ok::<T1, CliError>(x1)), T2::finalizes(vs.1, Ok::<T2, CliError>(x2)), T3::finalizes(vs.2, Ok::<T3, CliError>(x3))]
        T1::finalizes(vs.0, Ok::<T1, CliError>(x1)) && T2::finalizes(vs.1, Ok::<T2, CliError>(x2)) && T3::finalizes(vs.2, Ok::<T3, CliError>(x3)) && T4::finalizes(vs.3, Err::<T4, CliError>(e))
    ||| exists|x1: T1, x2: T2, x3: T3, x4: T4|
        #![trigger T1::finalizes(vs.0, Ok::<T1, CliError>(x1)), T2::finalizes(vs.1, Ok::<T2, CliError>(x2)), T3::finalizes(vs.2, Ok::<T3, CliError>(x3)), T4::finalizes(vs.3, Ok::<T4, CliError>(x4))]
        T1::finalizes(vs.0, Ok::<T1, CliError>(x1)) && T2::finalizes(vs.1, Ok::<T2, CliError>(x2)) && T3::finalizes(vs.2, Ok::<T3, CliError>(x3)) && T4::finalizes(vs.3, Ok::<T4, CliError>(x4)) && T5::finalizes(vs.4, Err::<T5, CliError>(e))
}

/// `st` is where parsing 5 option(s) starts from `cx`: the same arguments
/// and cursor, with the options documented in order and, with `add_help`,
/// the help flag after them.
#[verifier::opaque]
pub open spec fn started5<T1: Opt, T2: Opt, T3: Opt, T4: Opt, T5: Opt>(cx: ParsingContext, add_help: bool, st: ParsingContext) -> bool {
    &&& st.args == cx.args
    &&& st.cursor == cx.cursor
    &&& exists|s1: DocumentationStore, s2: DocumentationStore, s3: DocumentationStore, s4: DocumentationStore, s5: DocumentationStore|
        #![trigger T1::documents(cx.documentation, s1), T2::documents(s1, s2), T3::documents(s2, s3), T4::documents(s3, s4), T5::documents(s4, s5)]
        T1::documents(cx.documentation, s1) && T2::documents(s1, s2) && T3::documents(s2, s3) && T4::documents(s3, s4) && T5::documents(s4, s5) && if add_help { help_listed(s5, st.documentation) } else { st.documentation == s5 }
}

/// A trace of rounds over 5 option(s) grows by one round.
proof fn lemma_trace_push5<T1: Opt, T2: Opt, T3: Opt, T4: Opt, T5: Opt>(tr: Seq<((Option<T1>, Option<T2>, Option<T3>, Option<T4>, Option<T5>,), ParsingContext, bool)>, start: ParsingContext, k: nat, vs: (Option<T1>, Option<T2>, Option<T3>, Option<T4>, Option<T5>,), c: ParsingContext, ws: (Option<T1>, Option<T2>, Option<T3>, Option<T4>, Option<T5>,), c2: ParsingContext, p: bool)
    requires
        trace5::<T1, T2, T3, T4, T5>(tr, start, k, vs, c, true),
        round5::<T1, T2, T3, T4, T5>(vs, c, ws, c2, p),
    ensures
        trace5::<T1, T2, T3, T4, T5>(tr.push((ws, c2, p)), start, k + 1, ws, c2, p),
{
    reveal(trace5);
    reveal(trace_step5);
    let tr2 = tr.push((ws, c2, p));
    assert forall|i: int| 0 <= i < k + 1 implies #[trigger] trace_step5::<T1, T2, T3, T4, T5>(tr2, i) by {
        if i < k {
            assert(tr2[i] == tr[i]);
            assert(tr2[i + 1] == tr[i + 1]);
            assert(trace_step5::<T1, T2, T3, T4, T5>(tr, i));
        } else {
            assert(tr2[i] == (vs, c, true));
        }
    }
}

/// Tries 5 option(s) once each, in order, each from where the one before
/// stopped; gives whether any of them took something, or the first error,
/// with the values and the context after the round.
fn take_round5<T1: Opt, T2: Opt, T3: Opt, T4: Opt, T5: Opt>(vs: (Option<T1>, Option<T2>, Option<T3>, Option<T4>, Option<T5>,), cx: ParsingContext) -> (r: (Result<bool, CliError>, (Option<T1>, Option<T2>, Option<T3>, Option<T4>, Option<T5>,), ParsingContext))
    requires
        cx.cursor <= cx.args@.len(),
        cx.documentation.wf(),
    ensures
        r.2.cursor <= r.2.args@.len(),
        r.2.args@ == cx.args@,
        r.2.documentation == cx.documentation,
        r.0 is Ok ==> r.2.cursor >= cx.cursor,
        r.0 matches Ok(true) ==> r.2.cursor > cx.cursor,
        r.0 matches Ok(false) ==> r.2.cursor == cx.cursor,
        r.0 matches Ok(false) ==> vs.0.is_some() == r.1.0.is_some(),
        r.0 matches Ok(false) ==> vs.1.is_some() == r.1.1.is_some(),
        r.0 matches Ok(false) ==> vs.2.is_some() == r.1.2.is_some(),
        r.0 matches Ok(false) ==> vs.3.is_some() == r.1.3.is_some(),
        r.0 matches Ok(false) ==> vs.4.is_some() == r.1.4.is_some(),
        r.0 matches Ok(p) ==> round5::<T1, T2, T3, T4, T5>(vs, cx, r.1, r.2, p),
        r.0 matches Err(e) ==> round_err5::<T1, T2, T3, T4, T5>(vs, cx, e),
        r.0 matches Err(e) ==> (opt_error::<T1>(cx, e) || opt_error::<T2>(cx, e) || opt_error::<T3>(cx, e) || opt_error::<T4>(cx, e) || opt_error::<T5>(cx, e)),
{
    let ghost c0 = cx;
    let mut cx = cx;
    let (mut v1, mut v2, mut v3, mut v4, mut v5,) = vs;
    let r1 = T1::try_parse_self(&mut v1, &mut cx);
    let m1 = match r1 {
        Ok(m) => m,
        Err(e) => {
            proof {
                assert(T1::takes(vs.0, c0, Err::<bool, CliError>(e), v1, cx));
                assert(after_options(c0, c0));
                assert(opt_error::<T1>(c0, e));
                let ws = (v1, v2, v3, v4, v5,);
                assert(round_err_by5_1::<T1, T2, T3, T4, T5>(vs, c0, e, ws, cx)) by { reveal(round_err_by5_1); }
                assert(round_err5_1::<T1, T2, T3, T4, T5>(vs, c0, e)) by { reveal(round_err5_1); }
                assert(round_err5::<T1, T2, T3, T4, T5>(vs, c0, e)) by { reveal(round_err5); }
            }
            return (Err(e), (v1, v2, v3, v4, v5,), cx);
        },
    };
    let ghost a1 = v1;
    let ghost c1 = cx;
    let r2 = T2::try_parse_self(&mut v2, &mut cx);
    let m2 = match r2 {
        Ok(m) => m,
        Err(e) => {
            proof {
                assert(T2::takes(vs.1, c1, Err::<bool, CliError>(e), v2, cx));
                assert(after_options(c0, c1));
                assert(opt_error::<T2>(c0, e));
                let ws = (a1, v2, v3, v4, v5,);
                assert(round_err_by5_2::<T1, T2, T3, T4, T5>(vs, c0, e, ws, c1, cx, m1)) by { reveal(round_err_by5_2); }
                assert(round_err5_2::<T1, T2, T3, T4, T5>(vs, c0, e)) by { reveal(round_err5_2); }
                assert(round_err5::<T1, T2, T3, T4, T5>(vs, c0, e)) by { reveal(round_err5); }
            }
            return (Err(e), (v1, v2, v3, v4, v5,), cx);
        },
    };
    let ghost a2 = v2;
    let ghost c2 = cx;
    let r3 = T3::try_parse_self(&mut v3, &mut cx);
    let m3 = match r3 {
        Ok(m) => m,
        Err(e) => {
            proof {
                assert(T3::takes(vs.2, c2, Err::<bool, CliError>(e), v3, cx));
                assert(after_options(c0, c2));
                assert(opt_error::<T3>(c0, e));
                let ws = (a1, a2, v3, v4, v5,);
                assert(round_err_by5_3::<T1, T2, T3, T4, T5>(vs, c0, e, ws, c1, c2, cx, m1, m2)) by { reveal(round_err_by5_3); }
                assert(round_err5_3::<T1, T2, T3, T4, T5>(vs, c0, e)) by { reveal(round_err5_3); }
                assert(round_err5::<T1, T2, T3, T4, T5>(vs, c0, e)) by { reveal(round_err5); }
            }
            return (Err(e), (v1, v2, v3, v4, v5,), cx);
        },
    };
    let ghost a3 = v3;
    let ghost c3 = cx;
    let r4 = T4::try_parse_self(&mut v4, &mut cx);
    let m4 = match r4 {
        Ok(m) => m,
        Err(e) => {
            proof {
                assert(T4::takes(vs.3, c3, Err::<bool, CliError>(e), v4, cx));
                assert(after_options(c0, c3));
                assert(opt_error::<T4>(c0, e));
                let ws = (a1, a2, a3, v4, v5,);
                assert(round_err_by5_4::<T1, T2, T3, T4, T5>(vs, c0, e, ws, c1, c2, c3, cx, m1, m2, m3)) by { reveal(round_err_by5_4); }
                assert(round_err5_4::<T1, T2, T3, T4, T5>(vs, c0, e)) by { reveal(round_err5_4); }
                assert(round_err5::<T1, T2, T3, T4, T5>(vs, c0, e)) by { reveal(round_err5); }
            }
            return (Err(e), (v1, v2, v3, v4, v5,), cx);
        },
    };
    let ghost a4 = v4;
    let ghost c4 = cx;
    let r5 = T5::try_parse_self(&mut v5, &mut cx);
    let m5 = match r5 {
        Ok(m) => m,
        Err(e) => {
            proof {
                assert(T5::takes(vs.4, c4, Err::<bool, CliError>(e), v5, cx));
                assert(after_options(c0, c4));
                assert(opt_error::<T5>(c0, e));
                let ws = (a1, a2, a3, a4, v5,);
                assert(round_err_by5_5::<T1, T2, T3, T4, T5>(vs, c0, e, ws, c1, c2, c3, c4, cx, m1, m2, m3, m4)) by { reveal(round_err_by5_5); }
                assert(round_err5_5::<T1, T2, T3, T4, T5>(vs, c0, e)) by { reveal(round_err5_5); }
                assert(round_err5::<T1, T2, T3, T4, T5>(vs, c0, e)) by { reveal(round_err5); }
            }
            return (Err(e), (v1, v2, v3, v4, v5,), cx);
        },
    };
    let ghost a5 = v5;
    let ghost c5 = cx;
    proof {
        assert(round_by5::<T1, T2, T3, T4, T5>(vs, c0, (a1, a2, a3, a4, a5,), c5, m1 || m2 || m3 || m4 || m5, c1, c2, c3, c4, m1, m2, m3, m4, m5)) by { reveal(round_by5); }
        assert(round5::<T1, T2, T3, T4, T5>(vs, c0, (a1, a2, a3, a4, a5,), c5, m1 || m2 || m3 || m4 || m5)) by { reveal(round5); }
    }
    (Ok(m1 || m2 || m3 || m4 || m5), (v1, v2, v3, v4, v5,), cx)
}

/// Parsing 5 option(s) from `cx` ended well: rounds ran until one took
/// nothing, the remaining arguments gave the tail, and `cb` was called with
/// the final values of what the rounds took and with the tail.
#[verifier::opaque]
pub open spec fn done5<C: FnOnce(T1, T2, T3, T4, T5, F), T1: Opt, T2: Opt, T3: Opt, T4: Opt, T5: Opt, F: FinalOpt>(cb: C, cx: ParsingContext, add_help: bool) -> bool {
    exists|st: ParsingContext, k: nat, vs: (Option<T1>, Option<T2>, Option<T3>, Option<T4>, Option<T5>,), c: ParsingContext, x1: T1, x2: T2, x3: T3, x4: T4, x5: T5, t: F|
        #![trigger reach5::<T1, T2, T3, T4, T5>(st, k, vs, c, false), T1::finalizes(vs.0, Ok::<T1, CliError>(x1)), T2::finalizes(vs.1, Ok::<T2, CliError>(x2)), T3::finalizes(vs.2, Ok::<T3, CliError>(x3)), T4::finalizes(vs.3, Ok::<T4, CliError>(x4)), T5::finalizes(vs.4, Ok::<T5, CliError>(x5)), F::tail_takes(c, Ok::<F, CliError>(t))]
        started5::<T1, T2, T3, T4, T5>(cx, add_help, st) && reach5::<T1, T2, T3, T4, T5>(st, k, vs, c, false) && after_options(cx, c) && F::tail_takes(c, Ok::<F, CliError>(t)) && T1::finalizes(vs.0, Ok::<T1, CliError>(x1)) && T2::finalizes(vs.1, Ok::<T2, CliError>(x2)) && T3::finalizes(vs.2, Ok::<T3, CliError>(x3)) && T4::finalizes(vs.3, Ok::<T4, CliError>(x4)) && T5::finalizes(vs.4, Ok::<T5, CliError>(x5)) && call_ensures(cb, (x1, x2, x3, x4, x5, t), ())
}

/// `d` is the documentation of 5 option(s), listed in order after that of
/// `cx`, and then of the help flag.
#[verifier::opaque]
pub open spec fn helped5<T1: Opt, T2: Opt, T3: Opt, T4: Opt, T5: Opt>(cx: ParsingContext, d: DocumentationStore) -> bool {
    exists|s1: DocumentationStore, s2: DocumentationStore, s3: DocumentationStore, s4: DocumentationStore, s5: DocumentationStore|
        #![trigger T1::documents(cx.documentation, s1), T2::documents(s1, s2), T3::documents(s2, s3), T4::documents(s3, s4), T5::documents(s4, s5)]
        T1::documents(cx.documentation, s1) && T2::documents(s1, s2) && T3::documents(s2, s3) && T4::documents(s3, s4) && T5::documents(s4, s5) && help_listed(s5, d)
}

/// Parsing 5 option(s) from `cx` failed with `e`: a round stopped with it,
/// or, once the rounds ended, the remaining arguments or a final value gave it.
#[verifier::opaque]
pub open spec fn failed5<T1: Opt, T2: Opt, T3: Opt, T4: Opt, T5: Opt, F: FinalOpt>(cx: ParsingContext, add_help: bool, e: CliError) -> bool {
    exists|st: ParsingContext, k: nat, vs: (Option<T1>, Option<T2>, Option<T3>, Option<T4>, Option<T5>,), c: ParsingContext, p: bool|
        #![trigger reach5::<T1, T2, T3, T4, T5>(st, k, vs, c, p)]
        started5::<T1, T2, T3, T4, T5>(cx, add_help, st) && reach5::<T1, T2, T3, T4, T5>(st, k, vs, c, p) && if p {
            round_err5::<T1, T2, T3, T4, T5>(vs, c, e)
        } else {
            F::tail_takes(c, Err::<F, CliError>(e)) || (exists|t: F| #[trigger] F::tail_takes(c, Ok::<F, CliError>(t)) && fin_err5::<T1, T2, T3, T4, T5>(vs, e))
        }
}

impl<C: FnOnce(T1, T2, T3, T4, T5, F), T1: Opt, T2: Opt, T3: Opt, T4: Opt, T5: Opt, F: FinalOpt> ParsingCallback<(T1, T2, T3, T4, T5, F)> for C {
    open spec fn accepts_all(&self) -> bool {
        forall|a: T1, b: T2, c: T3, d: T4, e: T5, t: F| call_requires(*self, (a, b, c, d, e, t))
    }

    /// Done: rounds over the options ran until one took nothing, the remaining
    /// arguments gave the tail, and the callback was called with the final
    /// values of what the rounds took. Help: the documentation of the options
    /// and of the help flag. An error: the one a round, the tail or a final
    /// value gave, at the point the rounds reached.
    open spec fn outcome(&self, cx: ParsingContext, add_help: bool, r: Result<ParseOutcome, CliError>) -> bool {
        match r {
            Ok(ParseOutcome::Done) => done5::<C, T1, T2, T3, T4, T5, F>(*self, cx, add_help),
            Ok(ParseOutcome::Help(d)) => add_help && helped5::<T1, T2, T3, T4, T5>(cx, d),
            Err(e) => failed5::<T1, T2, T3, T4, T5, F>(cx, add_help, e) && (opt_error::<T1>(cx, e) || opt_error::<T2>(cx, e) || opt_error::<T3>(cx, e) || opt_error::<T4>(cx, e) || opt_error::<T5>(cx, e) || tail_error::<F>(cx, e)),
        }
    }

    fn process(cx: ParsingContext, callback: Self, add_help: bool) -> (r: Result<ParseOutcome, CliError>) {
        let mut ctx = cx;
        T1::add_documentation(&mut ctx.documentation);
        let ghost s1 = ctx.documentation;
        T2::add_documentation(&mut ctx.documentation);
        let ghost s2 = ctx.documentation;
        T3::add_documentation(&mut ctx.documentation);
        let ghost s3 = ctx.documentation;
        T4::add_documentation(&mut ctx.documentation);
        let ghost s4 = ctx.documentation;
        T5::add_documentation(&mut ctx.documentation);
        let ghost s5 = ctx.documentation;
        document_help(&mut ctx, add_help);
        let ghost start = ctx;
        assert(cx.next_arg() == start.next_arg());
        assert(started5::<T1, T2, T3, T4, T5>(cx, add_help, start)) by { reveal(started5); }
        proof {
            if add_help {
                assert(help_listed(s5, start.documentation));
                assert(helped5::<T1, T2, T3, T4, T5>(cx, start.documentation)) by { reveal(helped5); }
                assert(callback.outcome(cx, add_help, Ok(ParseOutcome::Help(start.documentation))));
            }
        }
        let ghost wants_help = add_help && next_names(cx, help_names());
        let mut v1: Option<T1> = None;
        let mut v2: Option<T2> = None;
        let mut v3: Option<T3> = None;
        let mut v4: Option<T4> = None;
        let mut v5: Option<T5> = None;
        let ghost mut k: nat = 0;
        let ghost mut tr: Seq<((Option<T1>, Option<T2>, Option<T3>, Option<T4>, Option<T5>,), ParsingContext, bool)> = seq![((v1, v2, v3, v4, v5,), start, true)];
        assert(trace5::<T1, T2, T3, T4, T5>(tr, start, 0, (v1, v2, v3, v4, v5,), ctx, true)) by { reveal(trace5); }
        loop
            invariant_except_break
                trace5::<T1, T2, T3, T4, T5>(tr, start, k, (v1, v2, v3, v4, v5,), ctx, true),
            invariant
                ctx.cursor <= ctx.args@.len(),
                ctx.documentation.wf(),
                ctx.documentation == start.documentation,
                ctx.args@ == start.args@,
                start.args@ == cx.args@,
                start.cursor == cx.cursor,
                ctx.cursor >= start.cursor,
                wants_help == (add_help && next_names(start, help_names())),
                wants_help == (add_help && next_names(cx, help_names())),
                wants_help ==> ctx.cursor == start.cursor,
                ctx.cursor == start.cursor ==> v1.is_none() && v2.is_none() && v3.is_none() && v4.is_none() && v5.is_none(),
                add_help ==> callback.outcome(cx, add_help, Ok(ParseOutcome::Help(start.documentation))),
                started5::<T1, T2, T3, T4, T5>(cx, add_help, start),
            ensures
                !wants_help,
                started5::<T1, T2, T3, T4, T5>(cx, add_help, start),
                reach5::<T1, T2, T3, T4, T5>(start, k, (v1, v2, v3, v4, v5,), ctx, false),
                ctx.cursor <= ctx.args@.len(),
                ctx.args@ == cx.args@,
                ctx.cursor >= cx.cursor,
            decreases ctx.args@.len() - ctx.cursor,
        {
            let ghost at_start = ctx;
            proof {
                if wants_help {
                    assert(at_start.next_arg() == start.next_arg());
                }
            }
            if help_asked(&mut ctx, add_help) {
                return Ok(ParseOutcome::Help(ctx.documentation));
            }
            assert(!wants_help);
            let ghost vs_old = (v1, v2, v3, v4, v5,);
            let ghost c_old = ctx;
            assert(trace5::<T1, T2, T3, T4, T5>(tr, start, k, vs_old, c_old, true));
            assert(reach5::<T1, T2, T3, T4, T5>(start, k, vs_old, c_old, true)) by { reveal(reach5); }
            let (rr, nvs, ncx) = take_round5::<T1, T2, T3, T4, T5>((v1, v2, v3, v4, v5,), ctx);
            ctx = ncx;
            let (n1, n2, n3, n4, n5,) = nvs;
            v1 = n1;
            v2 = n2;
            v3 = n3;
            v4 = n4;
            v5 = n5;
            let progress = match rr {
                Ok(p) => p,
                Err(e) => {
                    assert(failed5::<T1, T2, T3, T4, T5, F>(cx, add_help, e)) by { reveal(failed5); }
                    proof {
                        if opt_error::<T1>(c_old, e) { lemma_opt_error_from::<T1>(cx, c_old, e); }
                        if opt_error::<T2>(c_old, e) { lemma_opt_error_from::<T2>(cx, c_old, e); }
                        if opt_error::<T3>(c_old, e) { lemma_opt_error_from::<T3>(cx, c_old, e); }
                        if opt_error::<T4>(c_old, e) { lemma_opt_error_from::<T4>(cx, c_old, e); }
                        if opt_error::<T5>(c_old, e) { lemma_opt_error_from::<T5>(cx, c_old, e); }
                    }
                    return Err(e);
                },
            };
            proof {
                lemma_trace_push5::<T1, T2, T3, T4, T5>(tr, start, k, vs_old, c_old, (v1, v2, v3, v4, v5,), ctx, progress);
                tr = tr.push(((v1, v2, v3, v4, v5,), ctx, progress));
                k = k + 1;
            }
            if !progress {
                assert(reach5::<T1, T2, T3, T4, T5>(start, k, (v1, v2, v3, v4, v5,), ctx, false)) by { reveal(reach5); }
                break;
            }
        }
        let ghost tail_cx = ctx;
        let ghost vs_end = (v1, v2, v3, v4, v5,);
        let rt = F::try_parse_self(ctx);
        let tail = match rt {
            Ok(t) => t,
            Err(e) => {
                assert(F::tail_takes(tail_cx, Err::<F, CliError>(e)));
                assert(reach5::<T1, T2, T3, T4, T5>(start, k, vs_end, tail_cx, false)) by { reveal(reach5); }
                assert(failed5::<T1, T2, T3, T4, T5, F>(cx, add_help, e)) by { reveal(failed5); }
                return Err(e);
            },
        };
        assert(F::tail_takes(tail_cx, Ok::<F, CliError>(tail)));
        let ghost gt = tail;
        let fr1 = T1::finalize(v1);
        let x1 = match fr1 {
            Ok(x) => x,
            Err(e) => {
                assert(T1::finalizes(vs_end.0, Err::<T1, CliError>(e)));
                assert(fin_err5::<T1, T2, T3, T4, T5>(vs_end, e)) by { reveal(fin_err5); }
                assert(reach5::<T1, T2, T3, T4, T5>(start, k, vs_end, tail_cx, false)) by { reveal(reach5); }
                assert(failed5::<T1, T2, T3, T4, T5, F>(cx, add_help, e)) by { reveal(failed5); }
                return Err(e);
            },
        };
        assert(T1::finalizes(vs_end.0, Ok::<T1, CliError>(x1)));
        let ghost gx1 = x1;
        let fr2 = T2::finalize(v2);
        let x2 = match fr2 {
            Ok(x) => x,
            Err(e) => {
                assert(T2::finalizes(vs_end.1, Err::<T2, CliError>(e)));
                assert(fin_err5::<T1, T2, T3, T4, T5>(vs_end, e)) by { reveal(fin_err5); }
                assert(reach5::<T1, T2, T3, T4, T5>(start, k, vs_end, tail_cx, false)) by { reveal(reach5); }
                assert(failed5::<T1, T2, T3, T4, T5, F>(cx, add_help, e)) by { reveal(failed5); }
                return Err(e);
            },
        };
        assert(T2::finalizes(vs_end.1, Ok::<T2, CliError>(x2)));
        let ghost gx2 = x2;
        let fr3 = T3::finalize(v3);
        let x3 = match fr3 {
            Ok(x) => x,
            Err(e) => {
                assert(T3::finalizes(vs_end.2, Err::<T3, CliError>(e)));
                assert(fin_err5::<T1, T2, T3, T4, T5>(vs_end, e)) by { reveal(fin_err5); }
                assert(reach5::<T1, T2, T3, T4, T5>(start, k, vs_end, tail_cx, false)) by { reveal(reach5); }
                assert(failed5::<T1, T2, T3, T4, T5, F>(cx, add_help, e)) by { reveal(failed5); }
                return Err(e);
            },
        };
        assert(T3::finalizes(vs_end.2, Ok::<T3, CliError>(x3)));
        let ghost gx3 = x3;
        let fr4 = T4::finalize(v4);
        let x4 = match fr4 {
            Ok(x) => x,
            Err(e) => {
                assert(T4::finalizes(vs_end.3, Err::<T4, CliError>(e)));
                assert(fin_err5::<T1, T2, T3, T4, T5>(vs_end, e)) by { reveal(fin_err5); }
                assert(reach5::<T1, T2, T3, T4, T5>(start, k, vs_end, tail_cx, false)) by { reveal(reach5); }
                assert(failed5::<T1, T2, T3, T4, T5, F>(cx, add_help, e)) by { reveal(failed5); }
                return Err(e);
            },
        };
        assert(T4::finalizes(vs_end.3, Ok::<T4, CliError>(x4)));
        let ghost gx4 = x4;
        let fr5 = T5::finalize(v5);
        let x5 = match fr5 {
            Ok(x) => x,
            Err(e) => {
                assert(T5::finalizes(vs_end.4, Err::<T5, CliError>(e)));
                assert(fin_err5::<T1, T2, T3, T4, T5>(vs_end, e)) by { reveal(fin_err5); }
                assert(reach5::<T1, T2, T3, T4, T5>(start, k, vs_end, tail_cx, false)) by { reveal(reach5); }
                assert(failed5::<T1, T2, T3, T4, T5, F>(cx, add_help, e)) by { reveal(failed5); }
                return Err(e);
            },
        };
        assert(T5::finalizes(vs_end.4, Ok::<T5, CliError>(x5)));
        let ghost gx5 = x5;
        callback(x1, x2, x3, x4, x5, tail);
        assert(call_ensures(callback, (gx1, gx2, gx3, gx4, gx5, gt), ()));
        assert(reach5::<T1, T2, T3, T4, T5>(start, k, vs_end, tail_cx, false)) by { reveal(reach5); }
        assert(done5::<C, T1, T2, T3, T4, T5, F>(callback, cx, add_help)) by { reveal(done5); }
        Ok(ParseOutcome::Done)
    }
}

/// The steps of one round over 6 option(s), given the contexts `d..`
/// between them and what each returned, `m..`.
#[verifier::opaque]
pub open spec fn round_by6<T1: Opt, T2: Opt, T3: Opt, T4: Opt, T5: Opt, T6: Opt>(vs: (Option<T1>, Option<T2>, Option<T3>, Option<T4>, Option<T5>, Option<T6>,), c: ParsingContext, ws: (Option<T1>, Option<T2>, Option<T3>, Option<T4>, Option<T5>, Option<T6>,), c2: ParsingContext, progress: bool, d1: ParsingContext, d2: ParsingContext, d3: ParsingContext, d4: ParsingContext, d5: ParsingContext, m1: bool, m2: bool, m3: bool, m4: bool, m5: bool, m6: bool) -> bool {
    &&& T1::takes(vs.0, c, Ok::<bool, CliError>(m1), ws.0, d1)
    &&& T2::takes(vs.1, d1, Ok::<bool, CliError>(m2), ws.1, d2)
    &&& T3::takes(vs.2, d2, Ok::<bool, CliError>(m3), ws.2, d3)
    &&& T4::takes(vs.3, d3, Ok::<bool, CliError>(m4), ws.3, d4)
    &&& T5::takes(vs.4, d4, Ok::<bool, CliError>(m5), ws.4, d5)
    &&& T6::takes(vs.5, d5, Ok::<bool, CliError>(m6), ws.5, c2)
    &&& progress == (m1 || m2 || m3 || m4 || m5 || m6)
}

/// One round over 6 option(s) from `c`: each is tried in order, from where
/// the one before stopped, and `progress` tells whether any of them took
/// something; `ws` are the values and `c2` the context after the round.
#[verifier::opaque]
pub open spec fn round6<T1: Opt, T2: Opt, T3: Opt, T4: Opt, T5: Opt, T6: Opt>(vs: (Option<T1>, Option<T2>, Option<T3>, Option<T4>, Option<T5>, Option<T6>,), c: ParsingContext, ws: (Option<T1>, Option<T2>, Option<T3>, Option<T4>, Option<T5>, Option<T6>,), c2: ParsingContext, progress: bool) -> bool {
    exists|d1: ParsingContext, d2: ParsingContext, d3: ParsingContext, d4: ParsingContext, d5: ParsingContext, m1: bool, m2: bool, m3: bool, m4: bool, m5: bool, m6: bool| #[trigger] round_by6::<T1, T2, T3, T4, T5, T6>(vs, c, ws, c2, progress, d1, d2, d3, d4, d5, m1, m2, m3, m4, m5, m6)
}

/// Step `i` of a trace of rounds over 6 option(s): the state before it
/// continues, and the round leads to the next state.
#[verifier::opaque]
pub open spec fn trace_step6<T1: Opt, T2: Opt, T3: Opt, T4: Opt, T5: Opt, T6: Opt>(tr: Seq<((Option<T1>, Option<T2>, Option<T3>, Option<T4>, Option<T5>, Option<T6>,), ParsingContext, bool)>, i: int) -> bool {
    tr[i].2 && round6::<T1, T2, T3, T4, T5, T6>(tr[i].0, tr[i].1, tr[i + 1].0, tr[i + 1].1, tr[i + 1].2)
}

/// `tr` records `k` rounds over 6 option(s) from `start`, ending with the
/// values `vs`, the context `c` and whether the last round took something.
#[verifier::opaque]
pub open spec fn trace6<T1: Opt, T2: Opt, T3: Opt, T4: Opt, T5: Opt, T6: Opt>(tr: Seq<((Option<T1>, Option<T2>, Option<T3>, Option<T4>, Option<T5>, Option<T6>,), ParsingContext, bool)>, start: ParsingContext, k: nat, vs: (Option<T1>, Option<T2>, Option<T3>, Option<T4>, Option<T5>, Option<T6>,), c: ParsingContext, progress: bool) -> bool {
    &&& tr.len() == k + 1
    &&& tr[0] == ((None::<T1>, None::<T2>, None::<T3>, None::<T4>, None::<T5>, None::<T6>,), start, true)
    &&& tr[k as int] == (vs, c, progress)
    &&& forall|i: int| 0 <= i < k ==> #[trigger] trace_step6::<T1, T2, T3, T4, T5, T6>(tr, i)
}

/// The values and the context after `k` rounds over 6 option(s) from
/// `start`, every round before the last having taken something;
/// `progress` tells whether the last round did.
#[verifier::opaque]
pub open spec fn reach6<T1: Opt, T2: Opt, T3: Opt, T4: Opt, T5: Opt, T6: Opt>(start: ParsingContext, k: nat, vs: (Option<T1>, Option<T2>, Option<T3>, Option<T4>, Option<T5>, Option<T6>,), c: ParsingContext, progress: bool) -> bool {
    exists|tr: Seq<((Option<T1>, Option<T2>, Option<T3>, Option<T4>, Option<T5>, Option<T6>,), ParsingContext, bool)>| #[trigger] trace6::<T1, T2, T3, T4, T5, T6>(tr, start, k, vs, c, progress)
}

/// The steps of a round over 6 option(s) that stops at option 1 with `e`.
#[verifier::opaque]
pub open spec fn round_err_by6_1<T1: Opt, T2: Opt, T3: Opt, T4: Opt, T5: Opt, T6: Opt>(vs: (Option<T1>, Option<T2>, Option<T3>, Option<T4>, Option<T5>, Option<T6>,), c: ParsingContext, e: CliError, ws: (Option<T1>, Option<T2>, Option<T3>, Option<T4>, Option<T5>, Option<T6>,), d1: ParsingContext) -> bool {
    T1::takes(vs.0, c, Err::<bool, CliError>(e), ws.0, d1)
}

/// A round over 6 option(s) from `c` stops at option 1 with the error
/// `e`: the options before it are taken in order, and it gives `e`.
#[verifier::opaque]
pub open spec fn round_err6_1<T1: Opt, T2: Opt, T3: Opt, T4: Opt, T5: Opt, T6: Opt>(vs: (Option<T1>, Option<T2>, Option<T3>, Option<T4>, Option<T5>, Option<T6>,), c: ParsingContext, e: CliError) -> bool {
    exists|ws: (Option<T1>, Option<T2>, Option<T3>, Option<T4>, Option<T5>, Option<T6>,), d1: ParsingContext| #[trigger] round_err_by6_1::<T1, T2, T3, T4, T5, T6>(vs, c, e, ws, d1)
}

/// The steps of a round over 6 option(s) that stops at option 2 with `e`.
#[verifier::opaque]
pub open spec fn round_err_by6_2<T1: Opt, T2: Opt, T3: Opt, T4: Opt, T5: Opt, T6: Opt>(vs: (Option<T1>, Option<T2>, Option<T3>, Option<T4>, Option<T5>, Option<T6>,), c: ParsingContext, e: CliError, ws: (Option<T1>, Option<T2>, Option<T3>, Option<T4>, Option<T5>, Option<T6>,), d1: ParsingContext, d2: ParsingContext, m1: bool) -> bool {
    T1::takes(vs.0, c, Ok::<bool, CliError>(m1), ws.0, d1) && T2::takes(vs.1, d1, Err::<bool, CliError>(e), ws.1, d2)
}

/// A round over 6 option(s) from `c` stops at option 2 with the error
/// `e`: the options before it are taken in order, and it gives `e`.
#[verifier::opaque]
pub open spec fn round_err6_2<T1: Opt, T2: Opt, T3: Opt, T4: Opt, T5: Opt, T6: Opt>(vs: (Option<T1>, Option<T2>, Option<T3>, Option<T4>, Option<T5>, Option<T6>,), c: ParsingContext, e: CliError) -> bool {
    exists|ws: (Option<T1>, Option<T2>, Option<T3>, Option<T4>, Option<T5>, Option<T6>,), d1: ParsingContext, d2: ParsingContext, m1: bool| #[trigger] round_err_by6_2::<T1, T2, T3, T4, T5, T6>(vs, c, e, ws, d1, d2, m1)
}

/// The steps of a round over 6 option(s) that stops at option 3 with `e`.
#[verifier::opaque]
pub open spec fn round_err_by6_3<T1: Opt, T2: Opt, T3: Opt, T4: Opt, T5: Opt, T6: Opt>(vs: (Option<T1>, Option<T2>, Option<T3>, Option<T4>, Option<T5>, Option<T6>,), c: ParsingContext, e: CliError, ws: (Option<T1>, Option<T2>, Option<T3>, Option<T4>, Option<T5>, Option<T6>,), d1: ParsingContext, d2: ParsingContext, d3: ParsingContext, m1: bool, m2: bool) -> bool {
    T1::takes(vs.0, c, Ok::<bool, CliError>(m1), ws.0, d1) && T2::takes(vs.1, d1, Ok::<bool, CliError>(m2), ws.1, d2) && T3::takes(vs.2, d2, Err::<bool, CliError>(e), ws.2, d3)
}

/// A round over 6 option(s) from `c` stops at option 3 with the error
/// `e`: the options before it are taken in order, and it gives `e`.
#[verifier::opaque]
pub open spec fn round_err6_3<T1: Opt, T2: Opt, T3: Opt, T4: Opt, T5: Opt, T6: Opt>(vs: (Option<T1>, Option<T2>, Option<T3>, Option<T4>, Option<T5>, Option<T6>,), c: ParsingContext, e: CliError) -> bool {
    exists|ws: (Option<T1>, Option<T2>, Option<T3>, Option<T4>, Option<T5>, Option<T6>,), d1: ParsingContext, d2: ParsingContext, d3: ParsingContext, m1: bool, m2: bool| #[trigger] round_err_by6_3::<T1, T2, T3, T4, T5, T6>(vs, c, e, ws, d1, d2, d3, m1, m2)
}

/// The steps of a round over 6 option(s) that stops at option 4 with `e`.
#[verifier::opaque]
pub open spec fn round_err_by6_4<T1: Opt, T2: Opt, T3: Opt, T4: Opt, T5: Opt, T6: Opt>(vs: (Option<T1>, Option<T2>, Option<T3>, Option<T4>, Option<T5>, Option<T6>,), c: ParsingContext, e: CliError, ws: (Option<T1>, Option<T2>, Option<T3>, Option<T4>, Option<T5>, Option<T6>,), d1: ParsingContext, d2: ParsingContext, d3: ParsingContext, d4: ParsingContext, m1: bool, m2: bool, m3: bool) -> bool {
    T1::takes(vs.0, c, Ok::<bool, CliError>(m1), ws.0, d1) && T2::takes(vs.1, d1, Ok::<bool, CliError>(m2), ws.1, d2) && T3::takes(vs.2, d2, Ok::<bool, CliError>(m3), ws.2, d3) && T4::takes(vs.3, d3, Err::<bool, CliError>(e), ws.3, d4)
}

/// A round over 6 option(s) from `c` stops at option 4 with the error
/// `e`: the options before it are taken in order, and it gives `e`.
#[verifier::opaque]
pub open spec fn round_err6_4<T1: Opt, T2: Opt, T3: Opt, T4: Opt, T5: Opt, T6: Opt>(vs: (Option<T1>, Option<T2>, Option<T3>, Option<T4>, Option<T5>, Option<T6>,), c: ParsingContext, e: CliError) -> bool {
    exists|ws: (Option<T1>, Option<T2>, Option<T3>, Option<T4>, Option<T5>, Option<T6>,), d1: ParsingContext, d2: ParsingContext, d3: ParsingContext, d4: ParsingContext, m1: bool, m2: bool, m3: bool| #[trigger] round_err_by6_4::<T1, T2, T3, T4, T5, T6>(vs, c, e, ws, d1, d2, d3, d4, m1, m2, m3)
}

/// The steps of a round over 6 option(s) that stops at option 5 with `e`.
#[verifier::opaque]
pub open spec fn round_err_by6_5<T1: Opt, T2: Opt, T3: Opt, T4: Opt, T5: Opt, T6: Opt>(vs: (Option<T1>, Option<T2>, Option<T3>, Option<T4>, Option<T5>, Option<T6>,), c: ParsingContext, e: CliError, ws: (Option<T1>, Option<T2>, Option<T3>, Option<T4>, Option<T5>, Option<T6>,), d1: ParsingContext, d2: ParsingContext, d3: ParsingContext, d4: ParsingContext, d5: ParsingContext, m1: bool, m2: bool, m3: bool, m4: bool) -> bool {
    T1::takes(vs.0, c, Ok::<bool, CliError>(m1), ws.0, d1) && T2::takes(vs.1, d1, Ok::<bool, CliError>(m2), ws.1, d2) && T3::takes(vs.2, d2, Ok::<bool, CliError>(m3), ws.2, d3) && T4::takes(vs.3, d3, Ok::<bool, CliError>(m4), ws.3, d4) && T5::takes(vs.4, d4, Err::<bool, CliError>(e), ws.4, d5)
}

/// A round over 6 option(s) from `c` stops at option 5 with the error
/// `e`: the options before it are taken in order, and it gives `e`.
#[verifier::opaque]
pub open spec fn round_err6_5<T1: Opt, T2: Opt, T3: Opt, T4: Opt, T5: Opt, T6: Opt>(vs: (Option<T1>, Option<T2>, Option<T3>, Option<T4>, Option<T5>, Option<T6>,), c: ParsingContext, e: CliError) -> bool {
    exists|ws: (Option<T1>, Option<T2>, Option<T3>, Option<T4>, Option<T5>, Option<T6>,), d1: ParsingContext, d2: ParsingContext, d3: ParsingContext, d4: ParsingContext, d5: ParsingContext, m1: bool, m2: bool, m3: bool, m4: bool| #[trigger] round_err_by6_5::<T1, T2, T3, T4, T5, T6>(vs, c, e, ws, d1, d2, d3, d4, d5, m1, m2, m3, m4)
}

/// The steps of a round over 6 option(s) that stops at option 6 with `e`.
#[verifier::opaque]
pub open spec fn round_err_by6_6<T1: Opt, T2: Opt, T3: Opt, T4: Opt, T5: Opt, T6: Opt>(vs: (Option<T1>, Option<T2>, Option<T3>, Option<T4>, Option<T5>, Option<T6>,), c: ParsingContext, e: CliError, ws: (Option<T1>, Option<T2>, Option<T3>, Option<T4>, Option<T5>, Option<T6>,), d1: ParsingContext, d2: ParsingContext, d3: ParsingContext, d4: ParsingContext, d5: ParsingContext, d6: ParsingContext, m1: bool, m2: bool, m3: bool, m4: bool, m5: bool) -> bool {
    T1::takes(vs.0, c, Ok::<bool, CliError>(m1), ws.0, d1) && T2::takes(vs.1, d1, Ok::<bool, CliError>(m2), ws.1, d2) && T3::takes(vs.2, d2, Ok::<bool, CliError>(m3), ws.2, d3) && T4::takes(vs.3, d3, Ok::<bool, CliError>(m4), ws.3, d4) && T5::takes(vs.4, d4, Ok::<bool, CliError>(m5), ws.4, d5) && T6::takes(vs.5, d5, Err::<bool, CliError>(e), ws.5, d6)
}

/// A round over 6 option(s) from `c` stops at option 6 with the error
/// `e`: the options before it are taken in order, and it gives `e`.
#[verifier::opaque]
pub open spec fn round_err6_6<T1: Opt, T2: Opt, T3: Opt, T4: Opt, T5: Opt, T6: Opt>(vs: (Option<T1>, Option<T2>, Option<T3>, Option<T4>, Option<T5>, Option<T6>,), c: ParsingContext, e: CliError) -> bool {
    exists|ws: (Option<T1>, Option<T2>, Option<T3>, Option<T4>, Option<T5>, Option<T6>,), d1: ParsingContext, d2: ParsingContext, d3: ParsingContext, d4: ParsingContext, d5: ParsingContext, d6: ParsingContext, m1: bool, m2: bool, m3: bool, m4: bool, m5: bool| #[trigger] round_err_by6_6::<T1, T2, T3, T4, T5, T6>(vs, c, e, ws, d1, d2, d3, d4, d5, d6, m1, m2, m3, m4, m5)
}

/// A round over 6 option(s) from `c` stops with the error `e`.
#[verifier::opaque]
pub open spec fn round_err6<T1: Opt, T2: Opt, T3: Opt, T4: Opt, T5: Opt, T6: Opt>(vs: (Option<T1>, Option<T2>, Option<T3>, Option<T4>, Option<T5>, Option<T6>,), c: ParsingContext, e: CliError) -> bool {
    round_err6_1::<T1, T2, T3, T4, T5, T6>(vs, c, e) || round_err6_2::<T1, T2, T3, T4, T5, T6>(vs, c, e) || round_err6_3::<T1, T2, T3, T4, T5, T6>(vs, c, e) || round_err6_4::<T1, T2, T3, T4, T5, T6>(vs, c, e) || round_err6_5::<T1, T2, T3, T4, T5, T6>(vs, c, e) || round_err6_6::<T1, T2, T3, T4, T5, T6>(vs, c, e)
}

/// Taking the final values of 6 option(s) in order stops with the error
/// `e`: the values before the failing one are given, and it gives `e`.
#[verifier::opaque]
pub open spec fn fin_err6<T1: Opt, T2: Opt, T3: Opt, T4: Opt, T5: Opt, T6: Opt>(vs: (Option<T1>, Option<T2>, Option<T3>, Option<T4>, Option<T5>, Option<T6>,), e: CliError) -> bool {
    ||| T1::finalizes(vs.0, Err::<T1, CliError>(e))
    ||| exists|x1: T1|
        #![trigger T1::finalizes(vs.0, Ok::<T1, CliError>(x1))]
        T1::finalizes(vs.0, Ok::<T1, CliError>(x1)) && T2::finalizes(vs.1, Err::<T2, CliError>(e))
    ||| exists|x1: T1, x2: T2|
        #![trigger T1::finalizes(vs.0, Ok::<T1, CliError>(x1)), T2::finalizes(vs.1, Ok::<T2, CliError>(x2))]
        T1::finalizes(vs.0, Ok::<T1, CliError>(x1)) && T2::finalizes(vs.1, Ok::<T2, CliError>(x2)) && T3::finalizes(vs.2, Err::<T3, CliError>(e))
    ||| exists|x1: T1, x2: T2, x3: T3|
        #![trigger T1::finalizes(vs.0, Ok::<T1, CliError>(x1)), T2::finalizes(vs.1, Ok::<T2, CliError>(x2)), T3::finalizes(vs.2, Ok::<T3, CliError>(x3))]
        T1::finalizes(vs.0, Ok::<T1, CliError>(x1)) && T2::finalizes(vs.1, Ok::<T2, CliError>(x2)) && T3::finalizes(vs.2, Ok::<T3, CliError>(x3)) && T4::finalizes(vs.3, Err::<T4, CliError>(e))
    ||| exists|x1: T1, x2: T2, x3: T3, x4: T4|
        #![trigger T1::finalizes(vs.0, Ok::<T1, CliError>(x1)), T2::finalizes(vs.1, Ok::<T2, CliError>(x2)), T3::finalizes(vs.2, Ok::<T3, CliError>(x3)), T4::finalizes(vs.3, Ok::<T4, CliError>(x4))]
        T1::finalizes(vs.0, Ok::<T1, CliError>(x1)) && T2::finalizes(vs.1, Ok::<T2, CliError>(x2)) && T3::finalizes(vs.2, Ok::<T3, CliError>(x3)) && T4::finalizes(vs.3, Ok::<T4, CliError>(x4)) && T5::finalizes(vs.4, Err::<T5, CliError>(e))
    ||| exists|x1: T1, x2: T2, x3: T3, x4: T4, x5: T5|
        #![trigger T1::finalizes(vs.0, Ok::<T1, CliError>(x1)), T2::finalizes(vs.1, Ok::<T2, CliError>(x2)), T3::finalizes(vs.2, Ok::<T3, CliError>(x3)), T4::finalizes(vs.3, Ok::<T4, CliError>(x4)), T5::finalizes(vs.4, Ok::<T5, CliError>(x5))]
        T1::finalizes(vs.0, Ok::<T1, CliError>(x1)) && T2::finalizes(vs.1, Ok::<T2, CliError>(x2)) && T3::finalizes(vs.2, Ok::<T3, CliError>(x3)) && T4::finalizes(vs.3, Ok::<T4, CliError>(x4)) && T5::finalizes(vs.4, Ok::<T5, CliError>(x5)) && T6::finalizes(vs.5, Err::<T6, CliError>(e))
}

/// `st` is where parsing 6 option(s) starts from `cx`: the same arguments
/// and cursor, with the options documented in order and, with `add_help`,
/// the help flag after them.
#[verifier::opaque]
pub open spec fn started6<T1: Opt, T2: Opt, T3: Opt, T4: Opt, T5: Opt, T6: Opt>(cx: ParsingContext, add_help: bool, st: ParsingContext) -> bool {
    &&& st.args == cx.args
    &&& st.cursor == cx.cursor
    &&& exists|s1: DocumentationStore, s2: DocumentationStore, s3: DocumentationStore, s4: DocumentationStore, s5: DocumentationStore, s6: DocumentationStore|
        #![trigger T1::documents(cx.documentation, s1), T2::documents(s1, s2), T3::documents(s2, s3), T4::documents(s3, s4), T5::documents(s4, s5), T6::documents(s5, s6)]
        T1::documents(cx.documentation, s1) && T2::documents(s1, s2) && T3::documents(s2, s3) && T4::documents(s3, s4) && T5::documents(s4, s5) && T6::documents(s5, s6) && if add_help { help_listed(s6, st.documentation) } else { st.documentation == s6 }
}

/// A trace of rounds over 6 option(s) grows by one round.
proof fn lemma_trace_push6<T1: Opt, T2: Opt, T3: Opt, T4: Opt, T5: Opt, T6: Opt>(tr: Seq<((Option<T1>, Option<T2>, Option<T3>, Option<T4>, Option<T5>, Option<T6>,), ParsingContext, bool)>, start: ParsingContext, k: nat, vs: (Option<T1>, Option<T2>, Option<T3>, Option<T4>, Option<T5>, Option<T6>,), c: ParsingContext, ws: (Option<T1>, Option<T2>, Option<T3>, Option<T4>, Option<T5>, Option<T6>,), c2: ParsingContext, p: bool)
    requires
        trace6::<T1, T2, T3, T4, T5, T6>(tr, start, k, vs, c, true),
        round6::<T1, T2, T3, T4, T5, T6>(vs, c, ws, c2, p),
    ensures
        trace6::<T1, T2, T3, T4, T5, T6>(tr.push((ws, c2, p)), start, k + 1, ws, c2, p),
{
    reveal(trace6);
    reveal(trace_step6);
    let tr2 = tr.push((ws, c2, p));
    assert forall|i: int| 0 <= i < k + 1 implies #[trigger] trace_step6::<T1, T2, T3, T4, T5, T6>(tr2, i) by {
        if i < k {
            assert(tr2[i] == tr[i]);
            assert(tr2[i + 1] == tr[i + 1]);
            assert(trace_step6::<T1, T2, T3, T4, T5, T6>(tr, i));
        } else {
            assert(tr2[i] == (vs, c, true));
        }
    }
}

/// Tries 6 option(s) once each, in order, each from where the one before
/// stopped; gives whether any of them took something, or the first error,
/// with the values and the context after the round.
#[verifier::spinoff_prover]
#[verifier::rlimit(100)]
fn take_round6<T1: Opt, T2: Opt, T3: Opt, T4: Opt, T5: Opt, T6: Opt>(vs: (Option<T1>, Option<T2>, Option<T3>, Option<T4>, Option<T5>, Option<T6>,), cx: ParsingContext) -> (r: (Result<bool, CliError>, (Option<T1>, Option<T2>, Option<T3>, Option<T4>, Option<T5>, Option<T6>,), ParsingContext))
    requires
        cx.cursor <= cx.args@.len(),
        cx.documentation.wf(),
    ensures
        r.2.cursor <= r.2.args@.len(),
        r.2.args@ == cx.args@,
        r.2.documentation == cx.documentation,
        r.0 is Ok ==> r.2.cursor >= cx.cursor,
        r.0 matches Ok(true) ==> r.2.cursor > cx.cursor,
        r.0 matches Ok(false) ==> r.2.cursor == cx.cursor,
        r.0 matches Ok(false) ==> vs.0.is_some() == r.1.0.is_some(),
        r.0 matches Ok(false) ==> vs.1.is_some() == r.1.1.is_some(),
        r.0 matches Ok(false) ==> vs.2.is_some() == r.1.2.is_some(),
        r.0 matches Ok(false) ==> vs.3.is_some() == r.1.3.is_some(),
        r.0 matches Ok(false) ==> vs.4.is_some() == r.1.4.is_some(),
        r.0 matches Ok(false) ==> vs.5.is_some() == r.1.5.is_some(),
        r.0 matches Ok(p) ==> round6::<T1, T2, T3, T4, T5, T6>(vs, cx, r.1, r.2, p),
        r.0 matches Err(e) ==> round_err6::<T1, T2, T3, T4, T5, T6>(vs, cx, e),
        r.0 matches Err(e) ==> (opt_error::<T1>(cx, e) || opt_error::<T2>(cx, e) || opt_error::<T3>(cx, e) || opt_error::<T4>(cx, e) || opt_error::<T5>(cx, e) || opt_error::<T6>(cx, e)),
{
    let ghost c0 = cx;
    let mut cx = cx;
    let (mut v1, mut v2, mut v3, mut v4, mut v5, mut v6,) = vs;
    let r1 = T1::try_parse_self(&mut v1, &mut cx);
    let m1 = match r1 {
        Ok(m) => m,
        Err(e) => {
            proof {
                assert(T1::takes(vs.0, c0, Err::<bool, CliError>(e), v1, cx));
                assert(after_options(c0, c0));
                assert(opt_error::<T1>(c0, e));
                let ws = (v1, v2, v3, v4, v5, v6,);
                assert(round_err_by6_1::<T1, T2, T3, T4, T5, T6>(vs, c0, e, ws, cx)) by { reveal(round_err_by6_1); }
                assert(round_err6_1::<T1, T2, T3, T4, T5, T6>(vs, c0, e)) by { reveal(round_err6_1); }
                assert(round_err6::<T1, T2, T3, T4, T5, T6>(vs, c0, e)) by { reveal(round_err6); }
            }
            return (Err(e), (v1, v2, v3, v4, v5, v6,), cx);
        },
    };
    let ghost a1 = v1;
    let ghost c1 = cx;
    let r2 = T2::try_parse_self(&mut v2, &mut cx);
    let m2 = match r2 {
        Ok(m) => m,
        Err(e) => {
            proof {
                assert(T2::takes(vs.1, c1, Err::<bool, CliError>(e), v2, cx));
                assert(after_options(c0, c1));
                assert(opt_error::<T2>(c0, e));
                let ws = (a1, v2, v3, v4, v5, v6,);
                assert(round_err_by6_2::<T1, T2, T3, T4, T5, T6>(vs, c0, e, ws, c1, cx, m1)) by { reveal(round_err_by6_2); }
                assert(round_err6_2::<T1, T2, T3, T4, T5, T6>(vs, c0, e)) by { reveal(round_err6_2); }
                assert(round_err6::<T1, T2, T3, T4, T5, T6>(vs, c0, e)) by { reveal(round_err6); }
            }
            return (Err(e), (v1, v2, v3, v4, v5, v6,), cx);
        },
    };
    let ghost a2 = v2;
    let ghost c2 = cx;
    let r3 = T3::try_parse_self(&mut v3, &mut cx);
    let m3 = match r3 {
        Ok(m) => m,
        Err(e) => {
            proof {
                assert(T3::takes(vs.2, c2, Err::<bool, CliError>(e), v3, cx));
                assert(after_options(c0, c2));
                assert(opt_error::<T3>(c0, e));
                let ws = (a1, a2, v3, v4, v5, v6,);
                assert(round_err_by6_3::<T1, T2, T3, T4, T5, T6>(vs, c0, e, ws, c1, c2, cx, m1, m2)) by { reveal(round_err_by6_3); }
                assert(round_err6_3::<T1, T2, T3, T4, T5, T6>(vs, c0, e)) by { reveal(round_err6_3); }
                assert(round_err6::<T1, T2, T3, T4, T5, T6>(vs, c0, e)) by { reveal(round_err6); }
            }
            return (Err(e), (v1, v2, v3, v4, v5, v6,), cx);
        },
    };
    let ghost a3 = v3;
    let ghost c3 = cx;
    let r4 = T4::try_parse_self(&mut v4, &mut cx);
    let m4 = match r4 {
        Ok(m) => m,
        Err(e) => {
            proof {
                assert(T4::takes(vs.3, c3, Err::<bool, CliError>(e), v4, cx));
                assert(after_options(c0, c3));
                assert(opt_error::<T4>(c0, e));
                let ws = (a1, a2, a3, v4, v5, v6,);
                assert(round_err_by6_4::<T1, T2, T3, T4, T5, T6>(vs, c0, e, ws, c1, c2, c3, cx, m1, m2, m3)) by { reveal(round_err_by6_4); }
                assert(round_err6_4::<T1, T2, T3, T4, T5, T6>(vs, c0, e)) by { reveal(round_err6_4); }
                assert(round_err6::<T1, T2, T3, T4, T5, T6>(vs, c0, e)) by { reveal(round_err6); }
            }
            return (Err(e), (v1, v2, v3, v4, v5, v6,), cx);
        },
    };
    let ghost a4 = v4;
    let ghost c4 = cx;
    let r5 = T5::try_parse_self(&mut v5, &mut cx);
    let m5 = match r5 {
        Ok(m) => m,
        Err(e) => {
            proof {
                assert(T5::takes(vs.4, c4, Err::<bool, CliError>(e), v5, cx));
                assert(after_options(c0, c4));
                assert(opt_error::<T5>(c0, e));
                let ws = (a1, a2, a3, a4, v5, v6,);
                assert(round_err_by6_5::<T1, T2, T3, T4, T5, T6>(vs, c0, e, ws, c1, c2, c3, c4, cx, m1, m2, m3, m4)) by { reveal(round_err_by6_5); }
                assert(round_err6_5::<T1, T2, T3, T4, T5, T6>(vs, c0, e)) by { reveal(round_err6_5); }
                assert(round_err6::<T1, T2, T3, T4, T5, T6>(vs, c0, e)) by { reveal(round_err6); }
            }
            return (Err(e), (v1, v2, v3, v4, v5, v6,), cx);
        },
    };
    let ghost a5 = v5;
    let ghost c5 = cx;
    let r6 = T6::try_parse_self(&mut v6, &mut cx);
    let m6 = match r6 {
        Ok(m) => m,
        Err(e) => {
            proof {
                assert(T6::takes(vs.5, c5, Err::<bool, CliError>(e), v6, cx));
                assert(after_options(c0, c5));
                assert(opt_error::<T6>(c0, e));
                let ws = (a1, a2, a3, a4, a5, v6,);
                assert(round_err_by6_6::<T1, T2, T3, T4, T5, T6>(vs, c0, e, ws, c1, c2, c3, c4, c5, cx, m1, m2, m3, m4, m5)) by { reveal(round_err_by6_6); }
                assert(round_err6_6::<T1, T2, T3, T4, T5, T6>(vs, c0, e)) by { reveal(round_err6_6); }
                assert(round_err6::<T1, T2, T3, T4, T5, T6>(vs, c0, e)) by { reveal(round_err6); }
            }
            return (Err(e), (v1, v2, v3, v4, v5, v6,), cx);
        },
    };
    let ghost a6 = v6;
    let ghost c6 = cx;
    proof {
        assert(round_by6::<T1, T2, T3, T4, T5, T6>(vs, c0, (a1, a2, a3, a4, a5, a6,), c6, m1 || m2 || m3 || m4 || m5 || m6, c1, c2, c3, c4, c5, m1, m2, m3, m4, m5, m6)) by { reveal(round_by6); }
        assert(round6::<T1, T2, T3, T4, T5, T6>(vs, c0, (a1, a2, a3, a4, a5, a6,), c6, m1 || m2 || m3 || m4 || m5 || m6)) by { reveal(round6); }
    }
    (Ok(m1 || m2 || m3 || m4 || m5 || m6), (v1, v2, v3, v4, v5, v6,), cx)
}

/// Parsing 6 option(s) from `cx` ended well: rounds ran until one took
/// nothing, the remaining arguments gave the tail, and `cb` was called with
/// the final values of what the rounds took and with the tail.
#[verifier::opaque]
pub open spec fn done6<C: FnOnce(T1, T2, T3, T4, T5, T6, F), T1: Opt, T2: Opt, T3: Opt, T4: Opt, T5: Opt, T6: Opt, F: FinalOpt>(cb: C, cx: ParsingContext, add_help: bool) -> bool {
    exists|st: ParsingContext, k: nat, vs: (Option<T1>, Option<T2>, Option<T3>, Option<T4>, Option<T5>, Option<T6>,), c: ParsingContext, x1: T1, x2: T2, x3: T3, x4: T4, x5: T5, x6: T6, t: F|
        #![trigger reach6::<T1, T2, T3, T4, T5, T6>(st, k, vs, c, false), T1::finalizes(vs.0, Ok::<T1, CliError>(x1)), T2::finalizes(vs.1, Ok::<T2, CliError>(x2)), T3::finalizes(vs.2, Ok::<T3, CliError>(x3)), T4::finalizes(vs.3, Ok::<T4, CliError>(x4)), T5::finalizes(vs.4, Ok::<T5, CliError>(x5)), T6::finalizes(vs.5, Ok::<T6, CliError>(x6)), F::tail_takes(c, Ok::<F, CliError>(t))]
        started6::<T1, T2, T3, T4, T5, T6>(cx, add_help, st) && reach6::<T1, T2, T3, T4, T5, T6>(st, k, vs, c, false) && after_options(cx, c) && F::tail_takes(c, Ok::<F, CliError>(t)) && T1::finalizes(vs.0, Ok::<T1, CliError>(x1)) && T2::finalizes(vs.1, Ok::<T2, CliError>(x2)) && T3::finalizes(vs.2, Ok::<T3, CliError>(x3)) && T4::finalizes(vs.3, Ok::<T4, CliError>(x4)) && T5::finalizes(vs.4, Ok::<T5, CliError>(x5)) && T6::finalizes(vs.5, Ok::<T6, CliError>(x6)) && call_ensures(cb, (x1, x2, x3, x4, x5, x6, t), ())
}

/// `d` is the documentation of 6 option(s), listed in order after that of
/// `cx`, and then of the help flag.
#[verifier::opaque]
pub open spec fn helped6<T1: Opt, T2: Opt, T3: Opt, T4: Opt, T5: Opt, T6: Opt>(cx: ParsingContext, d: DocumentationStore) -> bool {
    exists|s1: DocumentationStore, s2: DocumentationStore, s3: DocumentationStore, s4: DocumentationStore, s5: DocumentationStore, s6: DocumentationStore|
        #![trigger T1::documents(cx.documentation, s1), T2::documents(s1, s2), T3::documents(s2, s3), T4::documents(s3, s4), T5::documents(s4, s5), T6::documents(s5, s6)]
        T1::documents(cx.documentation, s1) && T2::documents(s1, s2) && T3::documents(s2, s3) && T4::documents(s3, s4) && T5::documents(s4, s5) && T6::documents(s5, s6) && help_listed(s6, d)
}

/// Parsing 6 option(s) from `cx` failed with `e`: a round stopped with it,
/// or, once the rounds ended, the remaining arguments or a final value gave it.
#[verifier::opaque]
pub open spec fn failed6<T1: Opt, T2: Opt, T3: Opt, T4: Opt, T5: Opt, T6: Opt, F: FinalOpt>(cx: ParsingContext, add_help: bool, e: CliError) -> bool {
    exists|st: ParsingContext, k: nat, vs: (Option<T1>, Option<T2>, Option<T3>, Option<T4>, Option<T5>, Option<T6>,), c: ParsingContext, p: bool|
        #![trigger reach6::<T1, T2, T3, T4, T5, T6>(st, k, vs, c, p)]
        started6::<T1, T2, T3, T4, T5, T6>(cx, add_help, st) && reach6::<T1, T2, T3, T4, T5, T6>(st, k, vs, c, p) && if p {
            round_err6::<T1, T2, T3, T4, T5, T6>(vs, c, e)
        } else {
            F::tail_takes(c, Err::<F, CliError>(e)) || (exists|t: F| #[trigger] F::tail_takes(c, Ok::<F, CliError>(t)) && fin_err6::<T1, T2, T3, T4, T5, T6>(vs, e))
        }
}

impl<C: FnOnce(T1, T2, T3, T4, T5, T6, F), T1: Opt, T2: Opt, T3: Opt, T4: Opt, T5: Opt, T6: Opt, F: FinalOpt> ParsingCallback<(T1, T2, T3, T4, T5, T6, F)> for C {
    open spec fn accepts_all(&self) -> bool {
        forall|a: T1, b: T2, c: T3, d: T4, e: T5, g: T6, t: F| call_requires(*self, (a, b, c, d, e, g, t))
    }

    /// Done: rounds over the options ran until one took nothing, the remaining
    /// arguments gave the tail, and the callback was called with the final
    /// values of what the rounds took. Help: the documentation of the options
    /// and of the help flag. An error: the one a round, the tail or a final
    /// value gave, at the point the rounds reached.
    open spec fn outcome(&self, cx: ParsingContext, add_help: bool, r: Result<ParseOutcome, CliError>) -> bool {
        match r {
            Ok(ParseOutcome::Done) => done6::<C, T1, T2, T3, T4, T5, T6, F>(*self, cx, add_help),
            Ok(ParseOutcome::Help(d)) => add_help && helped6::<T1, T2, T3, T4, T5, T6>(cx, d),
            Err(e) => failed6::<T1, T2, T3, T4, T5, T6, F>(cx, add_help, e) && (opt_error::<T1>(cx, e) || opt_error::<T2>(cx, e) || opt_error::<T3>(cx, e) || opt_error::<T4>(cx, e) || opt_error::<T5>(cx, e) || opt_error::<T6>(cx, e) || tail_error::<F>(cx, e)),
        }
    }

    fn process(cx: ParsingContext, callback: Self, add_help: bool) -> (r: Result<ParseOutcome, CliError>) {
        let mut ctx = cx;
        T1::add_documentation(&mut ctx.documentation);
        let ghost s1 = ctx.documentation;
        T2::add_documentation(&mut ctx.documentation);
        let ghost s2 = ctx.documentation;
        T3::add_documentation(&mut ctx.documentation);
        let ghost s3 = ctx.documentation;
        T4::add_documentation(&mut ctx.documentation);
        let ghost s4 = ctx.documentation;
        T5::add_documentation(&mut ctx.documentation);
        let ghost s5 = ctx.documentation;
        T6::add_documentation(&mut ctx.documentation);
        let ghost s6 = ctx.documentation;
        document_help(&mut ctx, add_help);
        let ghost start = ctx;
        assert(cx.next_arg() == start.next_arg());
        assert(started6::<T1, T2, T3, T4, T5, T6>(cx, add_help, start)) by { reveal(started6); }
        proof {
            if add_help {
                assert(help_listed(s6, start.documentation));
                assert(helped6::<T1, T2, T3, T4, T5, T6>(cx, start.documentation)) by { reveal(helped6); }
                assert(callback.outcome(cx, add_help, Ok(ParseOutcome::Help(start.documentation))));
            }
        }
        let ghost wants_help = add_help && next_names(cx, help_names());
        let mut v1: Option<T1> = None;
        let mut v2: Option<T2> = None;
        let mut v3: Option<T3> = None;
        let mut v4: Option<T4> = None;
        let mut v5: Option<T5> = None;
        let mut v6: Option<T6> = None;
        let ghost mut k: nat = 0;
        let ghost mut tr: Seq<((Option<T1>, Option<T2>, Option<T3>, Option<T4>, Option<T5>, Option<T6>,), ParsingContext, bool)> = seq![((v1, v2, v3, v4, v5, v6,), start, true)];
        assert(trace6::<T1, T2, T3, T4, T5, T6>(tr, start, 0, (v1, v2, v3, v4, v5, v6,), ctx, true)) by { reveal(trace6); }
        loop
            invariant_except_break
                trace6::<T1, T2, T3, T4, T5, T6>(tr, start, k, (v1, v2, v3, v4, v5, v6,), ctx, true),
            invariant
                ctx.cursor <= ctx.args@.len(),
                ctx.documentation.wf(),
                ctx.documentation == start.documentation,
                ctx.args@ == start.args@,
                start.args@ == cx.args@,
                start.cursor == cx.cursor,
                ctx.cursor >= start.cursor,
                wants_help == (add_help && next_names(start, help_names())),
                wants_help == (add_help && next_names(cx, help_names())),
                wants_help ==> ctx.cursor == start.cursor,
                ctx.cursor == start.cursor ==> v1.is_none() && v2.is_none() && v3.is_none() && v4.is_none() && v5.is_none() && v6.is_none(),
                add_help ==> callback.outcome(cx, add_help, Ok(ParseOutcome::Help(start.documentation))),
                started6::<T1, T2, T3, T4, T5, T6>(cx, add_help, start),
            ensures
                !wants_help,
                started6::<T1, T2, T3, T4, T5, T6>(cx, add_help, start),
                reach6::<T1, T2, T3, T4, T5, T6>(start, k, (v1, v2, v3, v4, v5, v6,), ctx, false),
                ctx.cursor <= ctx.args@.len(),
                ctx.args@ == cx.args@,
                ctx.cursor >= cx.cursor,
            decreases ctx.args@.len() - ctx.cursor,
        {
            let ghost at_start = ctx;
            proof {
                if wants_help {
                    assert(at_start.next_arg() == start.next_arg());
                }
            }
            if help_asked(&mut ctx, add_help) {
                return Ok(ParseOutcome::Help(ctx.documentation));
            }
            assert(!wants_help);
            let ghost vs_old = (v1, v2, v3, v4, v5, v6,);
            let ghost c_old = ctx;
            assert(trace6::<T1, T2, T3, T4, T5, T6>(tr, start, k, vs_old, c_old, true));
            assert(reach6::<T1, T2, T3, T4, T5, T6>(start, k, vs_old, c_old, true)) by { reveal(reach6); }
            let (rr, nvs, ncx) = take_round6::<T1, T2, T3, T4, T5, T6>((v1, v2, v3, v4, v5, v6,), ctx);
            ctx = ncx;
            let (n1, n2, n3, n4, n5, n6,) = nvs;
            v1 = n1;
            v2 = n2;
            v3 = n3;
            v4 = n4;
            v5 = n5;
            v6 = n6;
            let progress = match rr {
                Ok(p) => p,
                Err(e) => {
                    assert(failed6::<T1, T2, T3, T4, T5, T6, F>(cx, add_help, e)) by { reveal(failed6); }
                    proof {
                        if opt_error::<T1>(c_old, e) { lemma_opt_error_from::<T1>(cx, c_old, e); }
                        if opt_error::<T2>(c_old, e) { lemma_opt_error_from::<T2>(cx, c_old, e); }
                        if opt_error::<T3>(c_old, e) { lemma_opt_error_from::<T3>(cx, c_old, e); }
                        if opt_error::<T4>(c_old, e) { lemma_opt_error_from::<T4>(cx, c_old, e); }
                        if opt_error::<T5>(c_old, e) { lemma_opt_error_from::<T5>(cx, c_old, e); }
                        if opt_error::<T6>(c_old, e) { lemma_opt_error_from::<T6>(cx, c_old, e); }
                    }
                    return Err(e);
                },
            };
            proof {
                lemma_trace_push6::<T1, T2, T3, T4, T5, T6>(tr, start, k, vs_old, c_old, (v1, v2, v3, v4, v5, v6,), ctx, progress);
                tr = tr.push(((v1, v2, v3, v4, v5, v6,), ctx, progress));
                k = k + 1;
            }
            if !progress {
                assert(reach6::<T1, T2, T3, T4, T5, T6>(start, k, (v1, v2, v3, v4, v5, v6,), ctx, false)) by { reveal(reach6); }
                break;
            }
        }
        let ghost tail_cx = ctx;
        let ghost vs_end = (v1, v2, v3, v4, v5, v6,);
        let rt = F::try_parse_self(ctx);
        let tail = match rt {
            Ok(t) => t,
            Err(e) => {
                assert(F::tail_takes(tail_cx, Err::<F, CliError>(e)));
                assert(reach6::<T1, T2, T3, T4, T5, T6>(start, k, vs_end, tail_cx, false)) by { reveal(reach6); }
                assert(failed6::<T1, T2, T3, T4, T5, T6, F>(cx, add_help, e)) by { reveal(failed6); }
                return Err(e);
            },
        };
        assert(F::tail_takes(tail_cx, Ok::<F, CliError>(tail)));
        let ghost gt = tail;
        let fr1 = T1::finalize(v1);
        let x1 = match fr1 {
            Ok(x) => x,
            Err(e) => {
                assert(T1::finalizes(vs_end.0, Err::<T1, CliError>(e)));
                assert(fin_err6::<T1, T2, T3, T4, T5, T6>(vs_end, e)) by { reveal(fin_err6); }
                assert(reach6::<T1, T2, T3, T4, T5, T6>(start, k, vs_end, tail_cx, false)) by { reveal(reach6); }
                assert(failed6::<T1, T2, T3, T4, T5, T6, F>(cx, add_help, e)) by { reveal(failed6); }
                return Err(e);
            },
        };
        assert(T1::finalizes(vs_end.0, Ok::<T1, CliError>(x1)));
        let ghost gx1 = x1;
        let fr2 = T2::finalize(v2);
        let x2 = match fr2 {
            Ok(x) => x,
            Err(e) => {
                assert(T2::finalizes(vs_end.1, Err::<T2, CliError>(e)));
                assert(fin_err6::<T1, T2, T3, T4, T5, T6>(vs_end, e)) by { reveal(fin_err6); }
                assert(reach6::<T1, T2, T3, T4, T5, T6>(start, k, vs_end, tail_cx, false)) by { reveal(reach6); }
                assert(failed6::<T1, T2, T3, T4, T5, T6, F>(cx, add_help, e)) by { reveal(failed6); }
                return Err(e);
            },
        };
        assert(T2::finalizes(vs_end.1, Ok::<T2, CliError>(x2)));
        let ghost gx2 = x2;
        let fr3 = T3::finalize(v3);
        let x3 = match fr3 {
            Ok(x) => x,
            Err(e) => {
                assert(T3::finalizes(vs_end.2, Err::<T3, CliError>(e)));
                assert(fin_err6::<T1, T2, T3, T4, T5, T6>(vs_end, e)) by { reveal(fin_err6); }
                assert(reach6::<T1, T2, T3, T4, T5, T6>(start, k, vs_end, tail_cx, false)) by { reveal(reach6); }
                assert(failed6::<T1, T2, T3, T4, T5, T6, F>(cx, add_help, e)) by { reveal(failed6); }
                return Err(e);
            },
        };
        assert(T3::finalizes(vs_end.2, Ok::<T3, CliError>(x3)));
        let ghost gx3 = x3;
        let fr4 = T4::finalize(v4);
        let x4 = match fr4 {
            Ok(x) => x,
            Err(e) => {
                assert(T4::finalizes(vs_end.3, Err::<T4, CliError>(e)));
                assert(fin_err6::<T1, T2, T3, T4, T5, T6>(vs_end, e)) by { reveal(fin_err6); }
                assert(reach6::<T1, T2, T3, T4, T5, T6>(start, k, vs_end, tail_cx, false)) by { reveal(reach6); }
                assert(failed6::<T1, T2, T3, T4, T5, T6, F>(cx, add_help, e)) by { reveal(failed6); }
                return Err(e);
            },
        };
        assert(T4::finalizes(vs_end.3, Ok::<T4, CliError>(x4)));
        let ghost gx4 = x4;
        let fr5 = T5::finalize(v5);
        let x5 = match fr5 {
            Ok(x) => x,
            Err(e) => {
                assert(T5::finalizes(vs_end.4, Err::<T5, CliError>(e)));
                assert(fin_err6::<T1, T2, T3, T4, T5, T6>(vs_end, e)) by { reveal(fin_err6); }
                assert(reach6::<T1, T2, T3, T4, T5, T6>(start, k, vs_end, tail_cx, false)) by { reveal(reach6); }
                assert(failed6::<T1, T2, T3, T4, T5, T6, F>(cx, add_help, e)) by { reveal(failed6); }
                return Err(e);
            },
        };
        assert(T5::finalizes(vs_end.4, Ok::<T5, CliError>(x5)));
        let ghost gx5 = x5;
        let fr6 = T6::finalize(v6);
        let x6 = match fr6 {
            Ok(x) => x,
            Err(e) => {
                assert(T6::finalizes(vs_end.5, Err::<T6, CliError>(e)));
                assert(fin_err6::<T1, T2, T3, T4, T5, T6>(vs_end, e)) by { reveal(fin_err6); }
                assert(reach6::<T1, T2, T3, T4, T5, T6>(start, k, vs_end, tail_cx, false)) by { reveal(reach6); }
                assert(failed6::<T1, T2, T3, T4, T5, T6, F>(cx, add_help, e)) by { reveal(failed6); }
                return Err(e);
            },
        };
        assert(T6::finalizes(vs_end.5, Ok::<T6, CliError>(x6)));
        let ghost gx6 = x6;
        callback(x1, x2, x3, x4, x5, x6, tail);
        assert(call_ensures(callback, (gx1, gx2, gx3, gx4, gx5, gx6, gt), ()));
        assert(reach6::<T1, T2, T3, T4, T5, T6>(start, k, vs_end, tail_cx, false)) by { reveal(reach6); }
        assert(done6::<C, T1, T2, T3, T4, T5, T6, F>(callback, cx, add_help)) by { reveal(done6); }
        Ok(ParseOutcome::Done)
    }
}

/// The steps of one round over 7 option(s), given the contexts `d..`
/// between them and what each returned, `m..`.
#[verifier::opaque]
pub open spec fn round_by7<T1: Opt, T2: Opt, T3: Opt, T4: Opt, T5: Opt, T6: Opt, T7: Opt>(vs: (Option<T1>, Option<T2>, Option<T3>, Option<T4>, Option<T5>, Option<T6>, Option<T7>,), c: ParsingContext, ws: (Option<T1>, Option<T2>, Option<T3>, Option<T4>, Option<T5>, Option<T6>, Option<T7>,), c2: ParsingContext, progress: bool, d1: ParsingContext, d2: ParsingContext, d3: ParsingContext, d4: ParsingContext, d5: ParsingContext, d6: ParsingContext, m1: bool, m2: bool, m3: bool, m4: bool, m5: bool, m6: bool, m7: bool) -> bool {
    &&& T1::takes(vs.0, c, Ok::<bool, CliError>(m1), ws.0, d1)
    &&& T2::takes(vs.1, d1, Ok::<bool, CliError>(m2), ws.1, d2)
    &&& T3::takes(vs.2, d2, Ok::<bool, CliError>(m3), ws.2, d3)
    &&& T4::takes(vs.3, d3, Ok::<bool, CliError>(m4), ws.3, d4)
    &&& T5::takes(vs.4, d4, Ok::<bool, CliError>(m5), ws.4, d5)
    &&& T6::takes(vs.5, d5, Ok::<bool, CliError>(m6), ws.5, d6)
    &&& T7::takes(vs.6, d6, Ok::<bool, CliError>(m7), ws.6, c2)
    &&& progress == (m1 || m2 || m3 || m4 || m5 || m6 || m7)
}

/// One round over 7 option(s) from `c`: each is tried in order, from where
/// the one before stopped, and `progress` tells whether any of them took
/// something; `ws` are the values and `c2` the context after the round.
#[verifier::opaque]
pub open spec fn round7<T1: Opt, T2: Opt, T3: Opt, T4: Opt, T5: Opt, T6: Opt, T7: Opt>(vs: (Option<T1>, Option<T2>, Option<T3>, Option<T4>, Option<T5>, Option<T6>, Option<T7>,), c: ParsingContext, ws: (Option<T1>, Option<T2>, Option<T3>, Option<T4>, Option<T5>, Option<T6>, Option<T7>,), c2: ParsingContext, progress: bool) -> bool {
    exists|d1: ParsingContext, d2: ParsingContext, d3: ParsingContext, d4: ParsingContext, d5: ParsingContext, d6: ParsingContext, m1: bool, m2: bool, m3: bool, m4: bool, m5: bool, m6: bool, m7: bool| #[trigger] round_by7::<T1, T2, T3, T4, T5, T6, T7>(vs, c, ws, c2, progress, d1, d2, d3, d4, d5, d6, m1, m2, m3, m4, m5, m6, m7)
}

/// Step `i` of a trace of rounds over 7 option(s): the state before it
/// continues, and the round leads to the next state.
#[verifier::opaque]
pub open spec fn trace_step7<T1: Opt, T2: Opt, T3: Opt, T4: Opt, T5: Opt, T6: Opt, T7: Opt>(tr: Seq<((Option<T1>, Option<T2>, Option<T3>, Option<T4>, Option<T5>, Option<T6>, Option<T7>,), ParsingContext, bool)>, i: int) -> bool {
    tr[i].2 && round7::<T1, T2, T3, T4, T5, T6, T7>(tr[i].0, tr[i].1, tr[i + 1].0, tr[i + 1].1, tr[i + 1].2)
}

/// `tr` records `k` rounds over 7 option(s) from `start`, ending with the
/// values `vs`, the context `c` and whether the last round took something.
#[verifier::opaque]
pub open spec fn trace7<T1: Opt, T2: Opt, T3: Opt, T4: Opt, T5: Opt, T6: Opt, T7: Opt>(tr: Seq<((Option<T1>, Option<T2>, Option<T3>, Option<T4>, Option<T5>, Option<T6>, Option<T7>,), ParsingContext, bool)>, start: ParsingContext, k: nat, vs: (Option<T1>, Option<T2>, Option<T3>, Option<T4>, Option<T5>, Option<T6>, Option<T7>,), c: ParsingContext, progress: bool) -> bool {
    &&& tr.len() == k + 1
    &&& tr[0] == ((None::<T1>, None::<T2>, None::<T3>, None::<T4>, None::<T5>, None::<T6>, None::<T7>,), start, true)
    &&& tr[k as int] == (vs, c, progress)
    &&& forall|i: int| 0 <= i < k ==> #[trigger] trace_step7::<T1, T2, T3, T4, T5, T6, T7>(tr, i)
}

/// The values and the context after `k` rounds over 7 option(s) from
/// `start`, every round before the last having taken something;
/// `progress` tells whether the last round did.
#[verifier::opaque]
pub open spec fn reach7<T1: Opt, T2: Opt, T3: Opt, T4: Opt, T5: Opt, T6: Opt, T7: Opt>(start: ParsingContext, k: nat, vs: (Option<T1>, Option<T2>, Option<T3>, Option<T4>, Option<T5>, Option<T6>, Option<T7>,), c: ParsingContext, progress: bool) -> bool {
    exists|tr: Seq<((Option<T1>, Option<T2>, Option<T3>, Option<T4>, Option<T5>, Option<T6>, Option<T7>,), ParsingContext, bool)>| #[trigger] trace7::<T1, T2, T3, T4, T5, T6, T7>(tr, start, k, vs, c, progress)
}

/// The steps of a round over 7 option(s) that stops at option 1 with `e`.
#[verifier::opaque]
pub open spec fn round_err_by7_1<T1: Opt, T2: Opt, T3: Opt, T4: Opt, T5: Opt, T6: Opt, T7: Opt>(vs: (Option<T1>, Option<T2>, Option<T3>, Option<T4>, Option<T5>, Option<T6>, Option<T7>,), c: ParsingContext, e: CliError, ws: (Option<T1>, Option<T2>, Option<T3>, Option<T4>, Option<T5>, Option<T6>, Option<T7>,), d1: ParsingContext) -> bool {
    T1::takes(vs.0, c, Err::<bool, CliError>(e), ws.0, d1)
}

/// A round over 7 option(s) from `c` stops at option 1 with the error
/// `e`: the options before it are taken in order, and it gives `e`.
#[verifier::opaque]
pub open spec fn round_err7_1<T1: Opt, T2: Opt, T3: Opt, T4: Opt, T5: Opt, T6: Opt, T7: Opt>(vs: (Option<T1>, Option<T2>, Option<T3>, Option<T4>, Option<T5>, Option<T6>, Option<T7>,), c: ParsingContext, e: CliError) -> bool {
    exists|ws: (Option<T1>, Option<T2>, Option<T3>, Option<T4>, Option<T5>, Option<T6>, Option<T7>,), d1: ParsingContext| #[trigger] round_err_by7_1::<T1, T2, T3, T4, T5, T6, T7>(vs, c, e, ws, d1)
}

/// The steps of a round over 7 option(s) that stops at option 2 with `e`.
#[verifier::opaque]
pub open spec fn round_err_by7_2<T1: Opt, T2: Opt, T3: Opt, T4: Opt, T5: Opt, T6: Opt, T7: Opt>(vs: (Option<T1>, Option<T2>, Option<T3>, Option<T4>, Option<T5>, Option<T6>, Option<T7>,), c: ParsingContext, e: CliError, ws: (Option<T1>, Option<T2>, Option<T3>, Option<T4>, Option<T5>, Option<T6>, Option<T7>,), d1: ParsingContext, d2: ParsingContext, m1: bool) -> bool {
    T1::takes(vs.0, c, Ok::<bool, CliError>(m1), ws.0, d1) && T2::takes(vs.1, d1, Err::<bool, CliError>(e), ws.1, d2)
}

/// A round over 7 option(s) from `c` stops at option 2 with the error
/// `e`: the options before it are taken in order, and it gives `e`.
#[verifier::opaque]
pub open spec fn round_err7_2<T1: Opt, T2: Opt, T3: Opt, T4: Opt, T5: Opt, T6: Opt, T7: Opt>(vs: (Option<T1>, Option<T2>, Option<T3>, Option<T4>, Option<T5>, Option<T6>, Option<T7>,), c: ParsingContext, e: CliError) -> bool {
    exists|ws: (Option<T1>, Option<T2>, Option<T3>, Option<T4>, Option<T5>, Option<T6>, Option<T7>,), d1: ParsingContext, d2: ParsingContext, m1: bool| #[trigger] round_err_by7_2::<T1, T2, T3, T4, T5, T6, T7>(vs, c, e, ws, d1, d2, m1)
}

/// The steps of a round over 7 option(s) that stops at option 3 with `e`.
#[verifier::opaque]
pub open spec fn round_err_by7_3<T1: Opt, T2: Opt, T3: Opt, T4: Opt, T5: Opt, T6: Opt, T7: Opt>(vs: (Option<T1>, Option<T2>, Option<T3>, Option<T4>, Option<T5>, Option<T6>, Option<T7>,), c: ParsingContext, e: CliError, ws: (Option<T1>, Option<T2>, Option<T3>, Option<T4>, Option<T5>, Option<T6>, Option<T7>,), d1: ParsingContext, d2: ParsingContext, d3: ParsingContext, m1: bool, m2: bool) -> bool {
    T1::takes(vs.0, c, Ok::<bool, CliError>(m1), ws.0, d1) && T2::takes(vs.1, d1, Ok::<bool, CliError>(m2), ws.1, d2) && T3::takes(vs.2, d2, Err::<bool, CliError>(e), ws.2, d3)
}

/// A round over 7 option(s) from `c` stops at option 3 with the error
/// `e`: the options before it are taken in order, and it gives `e`.
#[verifier::opaque]
pub open spec fn round_err7_3<T1: Opt, T2: Opt, T3: Opt, T4: Opt, T5: Opt, T6: Opt, T7: Opt>(vs: (Option<T1>, Option<T2>, Option<T3>, Option<T4>, Option<T5>, Option<T6>, Option<T7>,), c: ParsingContext, e: CliError) -> bool {
    exists|ws: (Option<T1>, Option<T2>, Option<T3>, Option<T4>, Option<T5>, Option<T6>, Option<T7>,), d1: ParsingContext, d2: ParsingContext, d3: ParsingContext, m1: bool, m2: bool| #[trigger] round_err_by7_3::<T1, T2, T3, T4, T5, T6, T7>(vs, c, e, ws, d1, d2, d3, m1, m2)
}

/// The steps of a round over 7 option(s) that stops at option 4 with `e`.
#[verifier::opaque]
pub open spec fn round_err_by7_4<T1: Opt, T2: Opt, T3: Opt, T4: Opt, T5: Opt, T6: Opt, T7: Opt>(vs: (Option<T1>, Option<T2>, Option<T3>, Option<T4>, Option<T5>, Option<T6>, Option<T7>,), c: ParsingContext, e: CliError, ws: (Option<T1>, Option<T2>, Option<T3>, Option<T4>, Option<T5>, Option<T6>, Option<T7>,), d1: ParsingContext, d2: ParsingContext, d3: ParsingContext, d4: ParsingContext, m1: bool, m2: bool, m3: bool) -> bool {
    T1::takes(vs.0, c, Ok::<bool, CliError>(m1), ws.0, d1) && T2::takes(vs.1, d1, Ok::<bool, CliError>(m2), ws.1, d2) && T3::takes(vs.2, d2, Ok::<bool, CliError>(m3), ws.2, d3) && T4::takes(vs.3, d3, Err::<bool, CliError>(e), ws.3, d4)
}

/// A round over 7 option(s) from `c` stops at option 4 with the error
/// `e`: the options before it are taken in order, and it gives `e`.
#[verifier::opaque]
pub open spec fn round_err7_4<T1: Opt, T2: Opt, T3: Opt, T4: Opt, T5: Opt, T6: Opt, T7: Opt>(vs: (Option<T1>, Option<T2>, Option<T3>, Option<T4>, Option<T5>, Option<T6>, Option<T7>,), c: ParsingContext, e: CliError) -> bool {
    exists|ws: (Option<T1>, Option<T2>, Option<T3>, Option<T4>, Option<T5>, Option<T6>, Option<T7>,), d1: ParsingContext, d2: ParsingContext, d3: ParsingContext, d4: ParsingContext, m1: bool, m2: bool, m3: bool| #[trigger] round_err_by7_4::<T1, T2, T3, T4, T5, T6, T7>(vs, c, e, ws, d1, d2, d3, d4, m1, m2, m3)
}

/// The steps of a round over 7 option(s) that stops at option 5 with `e`.
#[verifier::opaque]
pub open spec fn round_err_by7_5<T1: Opt, T2: Opt, T3: Opt, T4: Opt, T5: Opt, T6: Opt, T7: Opt>(vs: (Option<T1>, Option<T2>, Option<T3>, Option<T4>, Option<T5>, Option<T6>, Option<T7>,), c: ParsingContext, e: CliError, ws: (Option<T1>, Option<T2>, Option<T3>, Option<T4>, Option<T5>, Option<T6>, Option<T7>,), d1: ParsingContext, d2: ParsingContext, d3: ParsingContext, d4: ParsingContext, d5: ParsingContext, m1: bool, m2: bool, m3: bool, m4: bool) -> bool {
    T1::takes(vs.0, c, Ok::<bool, CliError>(m1), ws.0, d1) && T2::takes(vs.1, d1, Ok::<bool, CliError>(m2), ws.1, d2) && T3::takes(vs.2, d2, Ok::<bool, CliError>(m3), ws.2, d3) && T4::takes(vs.3, d3, Ok::<bool, CliError>(m4), ws.3, d4) && T5::takes(vs.4, d4, Err::<bool, CliError>(e), ws.4, d5)
}

/// A round over 7 option(s) from `c` stops at option 5 with the error
/// `e`: the options before it are taken in order, and it gives `e`.
#[verifier::opaque]
pub open spec fn round_err7_5<T1: Opt, T2: Opt, T3: Opt, T4: Opt, T5: Opt, T6: Opt, T7: Opt>(vs: (Option<T1>, Option<T2>, Option<T3>, Option<T4>, Option<T5>, Option<T6>, Option<T7>,), c: ParsingContext, e: CliError) -> bool {
    exists|ws: (Option<T1>, Option<T2>, Option<T3>, Option<T4>, Option<T5>, Option<T6>, Option<T7>,), d1: ParsingContext, d2: ParsingContext, d3: ParsingContext, d4: ParsingContext, d5: ParsingContext, m1: bool, m2: bool, m3: bool, m4: bool| #[trigger] round_err_by7_5::<T1, T2, T3, T4, T5, T6, T7>(vs, c, e, ws, d1, d2, d3, d4, d5, m1, m2, m3, m4)
}

/// The steps of a round over 7 option(s) that stops at option 6 with `e`.
#[verifier::opaque]
pub open spec fn round_err_by7_6<T1: Opt, T2: Opt, T3: Opt, T4: Opt, T5: Opt, T6: Opt, T7: Opt>(vs: (Option<T1>, Option<T2>, Option<T3>, Option<T4>, Option<T5>, Option<T6>, Option<T7>,), c: ParsingContext, e: CliError, ws: (Option<T1>, Option<T2>, Option<T3>, Option<T4>, Option<T5>, Option<T6>, Option<T7>,), d1: ParsingContext, d2: ParsingContext, d3: ParsingContext, d4: ParsingContext, d5: ParsingContext, d6: ParsingContext, m1: bool, m2: bool, m3: bool, m4: bool, m5: bool) -> bool {
    T1::takes(vs.0, c, Ok::<bool, CliError>(m1), ws.0, d1) && T2::takes(vs.1, d1, Ok::<bool, CliError>(m2), ws.1, d2) && T3::takes(vs.2, d2, Ok::<bool, CliError>(m3), ws.2, d3) && T4::takes(vs.3, d3, Ok::<bool, CliError>(m4), ws.3, d4) && T5::takes(vs.4, d4, Ok::<bool, CliError>(m5), ws.4, d5) && T6::takes(vs.5, d5, Err::<bool, CliError>(e), ws.5, d6)
}

/// A round over 7 option(s) from `c` stops at option 6 with the error
/// `e`: the options before it are taken in order, and it gives `e`.
#[verifier::opaque]
pub open spec fn round_err7_6<T1: Opt, T2: Opt, T3: Opt, T4: Opt, T5: Opt, T6: Opt, T7: Opt>(vs: (Option<T1>, Option<T2>, Option<T3>, Option<T4>, Option<T5>, Option<T6>, Option<T7>,), c: ParsingContext, e: CliError) -> bool {
    exists|ws: (Option<T1>, Option<T2>, Option<T3>, Option<T4>, Option<T5>, Option<T6>, Option<T7>,), d1: ParsingContext, d2: ParsingContext, d3: ParsingContext, d4: ParsingContext, d5: ParsingContext, d6: ParsingContext, m1: bool, m2: bool, m3: bool, m4: bool, m5: bool| #[trigger] round_err_by7_6::<T1, T2, T3, T4, T5, T6, T7>(vs, c, e, ws, d1, d2, d3, d4, d5, d6, m1, m2, m3, m4, m5)
}

/// The steps of a round over 7 option(s) that stops at option 7 with `e`.
#[verifier::opaque]
pub open spec fn round_err_by7_7<T1: Opt, T2: Opt, T3: Opt, T4: Opt, T5: Opt, T6: Opt, T7: Opt>(vs: (Option<T1>, Option<T2>, Option<T3>, Option<T4>, Option<T5>, Option<T6>, Option<T7>,), c: ParsingContext, e: CliError, ws: (Option<T1>, Option<T2>, Option<T3>, Option<T4>, Option<T5>, Option<T6>, Option<T7>,), d1: ParsingContext, d2: ParsingContext, d3: ParsingContext, d4: ParsingContext, d5: ParsingContext, d6: ParsingContext, d7: ParsingContext, m1: bool, m2: bool, m3: bool, m4: bool, m5: bool, m6: bool) -> bool {
    T1::takes(vs.0, c, Ok::<bool, CliError>(m1), ws.0, d1) && T2::takes(vs.1, d1, Ok::<bool, CliError>(m2), ws.1, d2) && T3::takes(vs.2, d2, Ok::<bool, CliError>(m3), ws.2, d3) && T4::takes(vs.3, d3, Ok::<bool, CliError>(m4), ws.3, d4) && T5::takes(vs.4, d4, Ok::<bool, CliError>(m5), ws.4, d5) && T6::takes(vs.5, d5, Ok::<bool, CliError>(m6), ws.5, d6) && T7::takes(vs.6, d6, Err::<bool, CliError>(e), ws.6, d7)
}

/// A round over 7 option(s) from `c` stops at option 7 with the error
/// `e`: the options before it are taken in order, and it gives `e`.
#[verifier::opaque]
pub open spec fn round_err7_7<T1: Opt, T2: Opt, T3: Opt, T4: Opt, T5: Opt, T6: Opt, T7: Opt>(vs: (Option<T1>, Option<T2>, Option<T3>, Option<T4>, Option<T5>, Option<T6>, Option<T7>,), c: ParsingContext, e: CliError) -> bool {
    exists|ws: (Option<T1>, Option<T2>, Option<T3>, Option<T4>, Option<T5>, Option<T6>, Option<T7>,), d1: ParsingContext, d2: ParsingContext, d3: ParsingContext, d4: ParsingContext, d5: ParsingContext, d6: ParsingContext, d7: ParsingContext, m1: bool, m2: bool, m3: bool, m4: bool, m5: bool, m6: bool| #[trigger] round_err_by7_7::<T1, T2, T3, T4, T5, T6, T7>(vs, c, e, ws, d1, d2, d3, d4, d5, d6, d7, m1, m2, m3, m4, m5, m6)
}

/// A round over 7 option(s) from `c` stops with the error `e`.
#[verifier::opaque]
pub open spec fn round_err7<T1: Opt, T2: Opt, T3: Opt, T4: Opt, T5: Opt, T6: Opt, T7: Opt>(vs: (Option<T1>, Option<T2>, Option<T3>, Option<T4>, Option<T5>, Option<T6>, Option<T7>,), c: ParsingContext, e: CliError) -> bool {
    round_err7_1::<T1, T2, T3, T4, T5, T6, T7>(vs, c, e) || round_err7_2::<T1, T2, T3, T4, T5, T6, T7>(vs, c, e) || round_err7_3::<T1, T2, T3, T4, T5, T6, T7>(vs, c, e) || round_err7_4::<T1, T2, T3, T4, T5, T6, T7>(vs, c, e) || round_err7_5::<T1, T2, T3, T4, T5, T6, T7>(vs, c, e) || round_err7_6::<T1, T2, T3, T4, T5, T6, T7>(vs, c, e) || round_err7_7::<T1, T2, T3, T4, T5, T6, T7>(vs, c, e)
}

/// Taking the final values of 7 option(s) in order stops with the error
/// `e`: the values before the failing one are given, and it gives `e`.
#[verifier::opaque]
pub open spec fn fin_err7<T1: Opt, T2: Opt, T3: Opt, T4: Opt, T5: Opt, T6: Opt, T7: Opt>(vs: (Option<T1>, Option<T2>, Option<T3>, Option<T4>, Option<T5>, Option<T6>, Option<T7>,), e: CliError) -> bool {
    ||| T1::finalizes(vs.0, Err::<T1, CliError>(e))
    ||| exists|x1: T1|
        #![trigger T1::finalizes(vs.0, Ok::<T1, CliError>(x1))]
        T1::finalizes(vs.0, Ok::<T1, CliError>(x1)) && T2::finalizes(vs.1, Err::<T2, CliError>(e))
    ||| exists|x1: T1, x2: T2|
        #![trigger T1::finalizes(vs.0, Ok::<T1, CliError>(x1)), T2::finalizes(vs.1, Ok::<T2, CliError>(x2))]
        T1::finalizes(vs.0, Ok::<T1, CliError>(x1)) && T2::finalizes(vs.1, Ok::<T2, CliError>(x2)) && T3::finalizes(vs.2, Err::<T3, CliError>(e))
    ||| exists|x1: T1, x2: T2, x3: T3|
        #![trigger T1::finalizes(vs.0, Ok::<T1, CliError>(x1)), T2::finalizes(vs.1, Ok::<T2, CliError>(x2)), T3::finalizes(vs.2, Ok::<T3, CliError>(x3))]
        T1::finalizes(vs.0, Ok::<T1, CliError>(x1)) && T2::finalizes(vs.1, Ok::<T2, CliError>(x2)) && T3::finalizes(vs.2, Ok::<T3, CliError>(x3)) && T4::finalizes(vs.3, Err::<T4, CliError>(e))
    ||| exists|x1: T1, x2: T2, x3: T3, x4: T4|
        #![trigger T1::finalizes(vs.0, Ok::<T1, CliError>(x1)), T2::finalizes(vs.1, Ok::<T2, CliError>(x2)), T3::finalizes(vs.2, Ok::<T3, CliError>(x3)), T4::finalizes(vs.3, Ok::<T4, CliError>(x4))]
        T1::finalizes(vs.0, Ok::<T1, CliError>(x1)) && T2::finalizes(vs.1, Ok::<T2, CliError>(x2)) && T3::finalizes(vs.2, Ok::<T3, CliError>(x3)) && T4::finalizes(vs.3, Ok::<T4, CliError>(x4)) && T5::finalizes(vs.4, Err::<T5, CliError>(e))
    ||| exists|x1: T1, x2: T2, x3: T3, x4: T4, x5: T5|
        #![trigger T1::finalizes(vs.0, Ok::<T1, CliError>(x1)), T2::finalizes(vs.1, Ok::<T2, CliError>(x2)), T3::finalizes(vs.2, Ok::<T3, CliError>(x3)), T4::finalizes(vs.3, Ok::<T4, CliError>(x4)), T5::finalizes(vs.4, Ok::<T5, CliError>(x5))]
        T1::finalizes(vs.0, Ok::<T1, CliError>(x1)) && T2::finalizes(vs.1, Ok::<T2, CliError>(x2)) && T3::finalizes(vs.2, Ok::<T3, CliError>(x3)) && T4::finalizes(vs.3, Ok::<T4, CliError>(x4)) && T5::finalizes(vs.4, Ok::<T5, CliError>(x5)) && T6::finalizes(vs.5, Err::<T6, CliError>(e))
    ||| exists|x1: T1, x2: T2, x3: T3, x4: T4, x5: T5, x6: T6|
        #![trigger T1::finalizes(vs.0, Ok::<T1, CliError>(x1)), T2::finalizes(vs.1, Ok::<T2, CliError>(x2)), T3::finalizes(vs.2, Ok::<T3, CliError>(x3)), T4::finalizes(vs.3, Ok::<T4, CliError>(x4)), T5::finalizes(vs.4, Ok::<T5, CliError>(x5)), T6::finalizes(vs.5, Ok::<T6, CliError>(x6))]
        T1::finalizes(vs.0, Ok::<T1, CliError>(x1)) && T2::finalizes(vs.1, Ok::<T2, CliError>(x2)) && T3::finalizes(vs.2, Ok::<T3, CliError>(x3)) && T4::finalizes(vs.3, Ok::<T4, CliError>(x4)) && T5::finalizes(vs.4, Ok::<T5, CliError>(x5)) && T6::finalizes(vs.5, Ok::<T6, CliError>(x6)) && T7::finalizes(vs.6, Err::<T7, CliError>(e))
}

/// `st` is where parsing 7 option(s) starts from `cx`: the same arguments
/// and cursor, with the options documented in order and, with `add_help`,
/// the help flag after them.
#[verifier::opaque]
pub open spec fn started7<T1: Opt, T2: Opt, T3: Opt, T4: Opt, T5: Opt, T6: Opt, T7: Opt>(cx: ParsingContext, add_help: bool, st: ParsingContext) -> bool {
    &&& st.args == cx.args
    &&& st.cursor == cx.cursor
    &&& exists|s1: DocumentationStore, s2: DocumentationStore, s3: DocumentationStore, s4: DocumentationStore, s5: DocumentationStore, s6: DocumentationStore, s7: DocumentationStore|
        #![trigger T1::documents(cx.documentation, s1), T2::documents(s1, s2), T3::documents(s2, s3), T4::documents(s3, s4), T5::documents(s4, s5), T6::documents(s5, s6), T7::documents(s6, s7)]
        T1::documents(cx.documentation, s1) && T2::documents(s1, s2) && T3::documents(s2, s3) && T4::documents(s3, s4) && T5::documents(s4, s5) && T6::documents(s5, s6) && T7::documents(s6, s7) && if add_help { help_listed(s7, st.documentation) } else { st.documentation == s7 }
}

/// A trace of rounds over 7 option(s) grows by one round.
proof fn lemma_trace_push7<T1: Opt, T2: Opt, T3: Opt, T4: Opt, T5: Opt, T6: Opt, T7: Opt>(tr: Seq<((Option<T1>, Option<T2>, Option<T3>, Option<T4>, Option<T5>, Option<T6>, Option<T7>,), ParsingContext, bool)>, start: ParsingContext, k: nat, vs: (Option<T1>, Option<T2>, Option<T3>, Option<T4>, Option<T5>, Option<T6>, Option<T7>,), c: ParsingContext, ws: (Option<T1>, Option<T2>, Option<T3>, Option<T4>, Option<T5>, Option<T6>, Option<T7>,), c2: ParsingContext, p: bool)
    requires
        trace7::<T1, T2, T3, T4, T5, T6, T7>(tr, start, k, vs, c, true),
        round7::<T1, T2, T3, T4, T5, T6, T7>(vs, c, ws, c2, p),
    ensures
        trace7::<T1, T2, T3, T4, T5, T6, T7>(tr.push((ws, c2, p)), start, k + 1, ws, c2, p),
{
    reveal(trace7);
    reveal(trace_step7);
    let tr2 = tr.push((ws, c2, p));
    assert forall|i: int| 0 <= i < k + 1 implies #[trigger] trace_step7::<T1, T2, T3, T4, T5, T6, T7>(tr2, i) by {
        if i < k {
            assert(tr2[i] == tr[i]);
            assert(tr2[i + 1] == tr[i + 1]);
            assert(trace_step7::<T1, T2, T3, T4, T5, T6, T7>(tr, i));
        } else {
            assert(tr2[i] == (vs, c, true));
        }
    }
}

/// Tries 7 option(s) once each, in order, each from where the one before
/// stopped; gives whether any of them took something, or the first error,
/// with the values and the context after the round.
#[verifier::spinoff_prover]
#[verifier::rlimit(100)]
fn take_round7<T1: Opt, T2: Opt, T3: Opt, T4: Opt, T5: Opt, T6: Opt, T7: Opt>(vs: (Option<T1>, Option<T2>, Option<T3>, Option<T4>, Option<T5>, Option<T6>, Option<T7>,), cx: ParsingContext) -> (r: (Result<bool, CliError>, (Option<T1>, Option<T2>, Option<T3>, Option<T4>, Option<T5>, Option<T6>, Option<T7>,), ParsingContext))
    requires
        cx.cursor <= cx.args@.len(),
        cx.documentation.wf(),
    ensures
        r.2.cursor <= r.2.args@.len(),
        r.2.args@ == cx.args@,
        r.2.documentation == cx.documentation,
        r.0 is Ok ==> r.2.cursor >= cx.cursor,
        r.0 matches Ok(true) ==> r.2.cursor > cx.cursor,
        r.0 matches Ok(false) ==> r.2.cursor == cx.cursor,
        r.0 matches Ok(false) ==> vs.0.is_some() == r.1.0.is_some(),
        r.0 matches Ok(false) ==> vs.1.is_some() == r.1.1.is_some(),
        r.0 matches Ok(false) ==> vs.2.is_some() == r.1.2.is_some(),
        r.0 matches Ok(false) ==> vs.3.is_some() == r.1.3.is_some(),
        r.0 matches Ok(false) ==> vs.4.is_some() == r.1.4.is_some(),
        r.0 matches Ok(false) ==> vs.5.is_some() == r.1.5.is_some(),
        r.0 matches Ok(false) ==> vs.6.is_some() == r.1.6.is_some(),
        r.0 matches Ok(p) ==> round7::<T1, T2, T3, T4, T5, T6, T7>(vs, cx, r.1, r.2, p),
        r.0 matches Err(e) ==> round_err7::<T1, T2, T3, T4, T5, T6, T7>(vs, cx, e),
        r.0 matches Err(e) ==> (opt_error::<T1>(cx, e) || opt_error::<T2>(cx, e) || opt_error::<T3>(cx, e) || opt_error::<T4>(cx, e) || opt_error::<T5>(cx, e) || opt_error::<T6>(cx, e) || opt_error::<T7>(cx, e)),
{
    let ghost c0 = cx;
    let mut cx = cx;
    let (mut v1, mut v2, mut v3, mut v4, mut v5, mut v6, mut v7,) = vs;
    let r1 = T1::try_parse_self(&mut v1, &mut cx);
    let m1 = match r1 {
        Ok(m) => m,
        Err(e) => {
            proof {
                assert(T1::takes(vs.0, c0, Err::<bool, CliError>(e), v1, cx));
                assert(after_options(c0, c0));
                assert(opt_error::<T1>(c0, e));
                let ws = (v1, v2, v3, v4, v5, v6, v7,);
                assert(round_err_by7_1::<T1, T2, T3, T4, T5, T6, T7>(vs, c0, e, ws, cx)) by { reveal(round_err_by7_1); }
                assert(round_err7_1::<T1, T2, T3, T4, T5, T6, T7>(vs, c0, e)) by { reveal(round_err7_1); }
                assert(round_err7::<T1, T2, T3, T4, T5, T6, T7>(vs, c0, e)) by { reveal(round_err7); }
            }
            return (Err(e), (v1, v2, v3, v4, v5, v6, v7,), cx);
        },
    };
    let ghost a1 = v1;
    let ghost c1 = cx;
    let r2 = T2::try_parse_self(&mut v2, &mut cx);
    let m2 = match r2 {
        Ok(m) => m,
        Err(e) => {
            proof {
                assert(T2::takes(vs.1, c1, Err::<bool, CliError>(e), v2, cx));
                assert(after_options(c0, c1));
                assert(opt_error::<T2>(c0, e));
                let ws = (a1, v2, v3, v4, v5, v6, v7,);
                assert(round_err_by7_2::<T1, T2, T3, T4, T5, T6, T7>(vs, c0, e, ws, c1, cx, m1)) by { reveal(round_err_by7_2); }
                assert(round_err7_2::<T1, T2, T3, T4, T5, T6, T7>(vs, c0, e)) by { reveal(round_err7_2); }
                assert(round_err7::<T1, T2, T3, T4, T5, T6, T7>(vs, c0, e)) by { reveal(round_err7); }
            }
            return (Err(e), (v1, v2, v3, v4, v5, v6, v7,), cx);
        },
    };
    let ghost a2 = v2;
    let ghost c2 = cx;
    let r3 = T3::try_parse_self(&mut v3, &mut cx);
    let m3 = match r3 {
        Ok(m) => m,
        Err(e) => {
            proof {
                assert(T3::takes(vs.2, c2, Err::<bool, CliError>(e), v3, cx));
                assert(after_options(c0, c2));
                assert(opt_error::<T3>(c0, e));
                let ws = (a1, a2, v3, v4, v5, v6, v7,);
                assert(round_err_by7_3::<T1, T2, T3, T4, T5, T6, T7>(vs, c0, e, ws, c1, c2, cx, m1, m2)) by { reveal(round_err_by7_3); }
                assert(round_err7_3::<T1, T2, T3, T4, T5, T6, T7>(vs, c0, e)) by { reveal(round_err7_3); }
                assert(round_err7::<T1, T2, T3, T4, T5, T6, T7>(vs, c0, e)) by { reveal(round_err7); }
            }
            return (Err(e), (v1, v2, v3, v4, v5, v6, v7,), cx);
        },
    };
    let ghost a3 = v3;
    let ghost c3 = cx;
    let r4 = T4::try_parse_self(&mut v4, &mut cx);
    let m4 = match r4 {
        Ok(m) => m,
        Err(e) => {
            proof {
                assert(T4::takes(vs.3, c3, Err::<bool, CliError>(e), v4, cx));
                assert(after_options(c0, c3));
                assert(opt_error::<T4>(c0, e));
                let ws = (a1, a2, a3, v4, v5, v6, v7,);
                assert(round_err_by7_4::<T1, T2, T3, T4, T5, T6, T7>(vs, c0, e, ws, c1, c2, c3, cx, m1, m2, m3)) by { reveal(round_err_by7_4); }
                assert(round_err7_4::<T1, T2, T3, T4, T5, T6, T7>(vs, c0, e)) by { reveal(round_err7_4); }
                assert(round_err7::<T1, T2, T3, T4, T5, T6, T7>(vs, c0, e)) by { reveal(round_err7); }
            }
            return (Err(e), (v1, v2, v3, v4, v5, v6, v7,), cx);
        },
    };
    let ghost a4 = v4;
    let ghost c4 = cx;
    let r5 = T5::try_parse_self(&mut v5, &mut cx);
    let m5 = match r5 {
        Ok(m) => m,
        Err(e) => {
            proof {
                assert(T5::takes(vs.4, c4, Err::<bool, CliError>(e), v5, cx));
                assert(after_options(c0, c4));
                assert(opt_error::<T5>(c0, e));
                let ws = (a1, a2, a3, a4, v5, v6, v7,);
                assert(round_err_by7_5::<T1, T2, T3, T4, T5, T6, T7>(vs, c0, e, ws, c1, c2, c3, c4, cx, m1, m2, m3, m4)) by { reveal(round_err_by7_5); }
                assert(round_err7_5::<T1, T2, T3, T4, T5, T6, T7>(vs, c0, e)) by { reveal(round_err7_5); }
                assert(round_err7::<T1, T2, T3, T4, T5, T6, T7>(vs, c0, e)) by { reveal(round_err7); }
            }
            return (Err(e), (v1, v2, v3, v4, v5, v6, v7,), cx);
        },
    };
    let ghost a5 = v5;
    let ghost c5 = cx;
    let r6 = T6::try_parse_self(&mut v6, &mut cx);
    let m6 = match r6 {
        Ok(m) => m,
        Err(e) => {
            proof {
                assert(T6::takes(vs.5, c5, Err::<bool, CliError>(e), v6, cx));
                assert(after_options(c0, c5));
                assert(opt_error::<T6>(c0, e));
                let ws = (a1, a2, a3, a4, a5, v6, v7,);
                assert(round_err_by7_6::<T1, T2, T3, T4, T5, T6, T7>(vs, c0, e, ws, c1, c2, c3, c4, c5, cx, m1, m2, m3, m4, m5)) by { reveal(round_err_by7_6); }
                assert(round_err7_6::<T1, T2, T3, T4, T5, T6, T7>(vs, c0, e)) by { reveal(round_err7_6); }
                assert(round_err7::<T1, T2, T3, T4, T5, T6, T7>(vs, c0, e)) by { reveal(round_err7); }
            }
            return (Err(e), (v1, v2, v3, v4, v5, v6, v7,), cx);
        },
    };
    let ghost a6 = v6;
    let ghost c6 = cx;
    let r7 = T7::try_parse_self(&mut v7, &mut cx);
    let m7 = match r7 {
        Ok(m) => m,
        Err(e) => {
            proof {
                assert(T7::takes(vs.6, c6, Err::<bool, CliError>(e), v7, cx));
                assert(after_options(c0, c6));
                assert(opt_error::<T7>(c0, e));
                let ws = (a1, a2, a3, a4, a5, a6, v7,);
                assert(round_err_by7_7::<T1, T2, T3, T4, T5, T6, T7>(vs, c0, e, ws, c1, c2, c3, c4, c5, c6, cx, m1, m2, m3, m4, m5, m6)) by { reveal(round_err_by7_7); }
                assert(round_err7_7::<T1, T2, T3, T4, T5, T6, T7>(vs, c0, e)) by { reveal(round_err7_7); }
                assert(round_err7::<T1, T2, T3, T4, T5, T6, T7>(vs, c0, e)) by { reveal(round_err7); }
            }
            return (Err(e), (v1, v2, v3, v4, v5, v6, v7,), cx);
        },
    };
    let ghost a7 = v7;
    let ghost c7 = cx;
    proof {
        assert(round_by7::<T1, T2, T3, T4, T5, T6, T7>(vs, c0, (a1, a2, a3, a4, a5, a6, a7,), c7, m1 || m2 || m3 || m4 || m5 || m6 || m7, c1, c2, c3, c4, c5, c6, m1, m2, m3, m4, m5, m6, m7)) by { reveal(round_by7); }
        assert(round7::<T1, T2, T3, T4, T5, T6, T7>(vs, c0, (a1, a2, a3, a4, a5, a6, a7,), c7, m1 || m2 || m3 || m4 || m5 || m6 || m7)) by { reveal(round7); }
    }
    (Ok(m1 || m2 || m3 || m4 || m5 || m6 || m7), (v1, v2, v3, v4, v5, v6, v7,), cx)
}

/// Parsing 7 option(s) from `cx` ended well: rounds ran until one took
/// nothing, the remaining arguments gave the tail, and `cb` was called with
/// the final values of what the rounds took and with the tail.
#[verifier::opaque]
pub open spec fn done7<C: FnOnce(T1, T2, T3, T4, T5, T6, T7, F), T1: Opt, T2: Opt, T3: Opt, T4: Opt, T5: Opt, T6: Opt, T7: Opt, F: FinalOpt>(cb: C, cx: ParsingContext, add_help: bool) -> bool {
    exists|st: ParsingContext, k: nat, vs: (Option<T1>, Option<T2>, Option<T3>, Option<T4>, Option<T5>, Option<T6>, Option<T7>,), c: ParsingContext, x1: T1, x2: T2, x3: T3, x4: T4, x5: T5, x6: T6, x7: T7, t: F|
        #![trigger reach7::<T1, T2, T3, T4, T5, T6, T7>(st, k, vs, c, false), T1::finalizes(vs.0, Ok::<T1, CliError>(x1)), T2::finalizes(vs.1, Ok::<T2, CliError>(x2)), T3::finalizes(vs.2, Ok::<T3, CliError>(x3)), T4::finalizes(vs.3, Ok::<T4, CliError>(x4)), T5::finalizes(vs.4, Ok::<T5, CliError>(x5)), T6::finalizes(vs.5, Ok::<T6, CliError>(x6)), T7::finalizes(vs.6, Ok::<T7, CliError>(x7)), F::tail_takes(c, Ok::<F, CliError>(t))]
        started7::<T1, T2, T3, T4, T5, T6, T7>(cx, add_help, st) && reach7::<T1, T2, T3, T4, T5, T6, T7>(st, k, vs, c, false) && after_options(cx, c) && F::tail_takes(c, Ok::<F, CliError>(t)) && T1::finalizes(vs.0, Ok::<T1, CliError>(x1)) && T2::finalizes(vs.1, Ok::<T2, CliError>(x2)) && T3::finalizes(vs.2, Ok::<T3, CliError>(x3)) && T4::finalizes(vs.3, Ok::<T4, CliError>(x4)) && T5::finalizes(vs.4, Ok::<T5, CliError>(x5)) && T6::finalizes(vs.5, Ok::<T6, CliError>(x6)) && T7::finalizes(vs.6, Ok::<T7, CliError>(x7)) && call_ensures(cb, (x1, x2, x3, x4, x5, x6, x7, t), ())
}

/// `d` is the documentation of 7 option(s), listed in order after that of
/// `cx`, and then of the help flag.
#[verifier::opaque]
pub open spec fn helped7<T1: Opt, T2: Opt, T3: Opt, T4: Opt, T5: Opt, T6: Opt, T7: Opt>(cx: ParsingContext, d: DocumentationStore) -> bool {
    exists|s1: DocumentationStore, s2: DocumentationStore, s3: DocumentationStore, s4: DocumentationStore, s5: DocumentationStore, s6: DocumentationStore, s7: DocumentationStore|
        #![trigger T1::documents(cx.documentation, s1), T2::documents(s1, s2), T3::documents(s2, s3), T4::documents(s3, s4), T5::documents(s4, s5), T6::documents(s5, s6), T7::documents(s6, s7)]
        T1::documents(cx.documentation, s1) && T2::documents(s1, s2) && T3::documents(s2, s3) && T4::documents(s3, s4) && T5::documents(s4, s5) && T6::documents(s5, s6) && T7::documents(s6, s7) && help_listed(s7, d)
}

/// Parsing 7 option(s) from `cx` failed with `e`: a round stopped with it,
/// or, once the rounds ended, the remaining arguments or a final value gave it.
#[verifier::opaque]
pub open spec fn failed7<T1: Opt, T2: Opt, T3: Opt, T4: Opt, T5: Opt, T6: Opt, T7: Opt, F: FinalOpt>(cx: ParsingContext, add_help: bool, e: CliError) -> bool {
    exists|st: ParsingContext, k: nat, vs: (Option<T1>, Option<T2>, Option<T3>, Option<T4>, Option<T5>, Option<T6>, Option<T7>,), c: ParsingContext, p: bool|
        #![trigger reach7::<T1, T2, T3, T4, T5, T6, T7>(st, k, vs, c, p)]
        started7::<T1, T2, T3, T4, T5, T6, T7>(cx, add_help, st) && reach7::<T1, T2, T3, T4, T5, T6, T7>(st, k, vs, c, p) && if p {
            round_err7::<T1, T2, T3, T4, T5, T6, T7>(vs, c, e)
        } else {
            F::tail_takes(c, Err::<F, CliError>(e)) || (exists|t: F| #[trigger] F::tail_takes(c, Ok::<F, CliError>(t)) && fin_err7::<T1, T2, T3, T4, T5, T6, T7>(vs, e))
        }
}

impl<C: FnOnce(T1, T2, T3, T4, T5, T6, T7, F), T1: Opt, T2: Opt, T3: Opt, T4: Opt, T5: Opt, T6: Opt, T7: Opt, F: FinalOpt> ParsingCallback<(T1, T2, T3, T4, T5, T6, T7, F)> for C {
    open spec fn accepts_all(&self) -> bool {
        forall|a: T1, b: T2, c: T3, d: T4, e: T5, g: T6, h: T7, t: F| call_requires(*self, (a, b, c, d, e, g, h, t))
    }

    /// Done: rounds over the options ran until one took nothing, the remaining
    /// arguments gave the tail, and the callback was called with the final
    /// values of what the rounds took. Help: the documentation of the options
    /// and of the help flag. An error: the one a round, the tail or a final
    /// value gave, at the point the rounds reached.
    open spec fn outcome(&self, cx: ParsingContext, add_help: bool, r: Result<ParseOutcome, CliError>) -> bool {
        match r {
            Ok(ParseOutcome::Done) => done7::<C, T1, T2, T3, T4, T5, T6, T7, F>(*self, cx, add_help),
            Ok(ParseOutcome::Help(d)) => add_help && helped7::<T1, T2, T3, T4, T5, T6, T7>(cx, d),
            Err(e) => failed7::<T1, T2, T3, T4, T5, T6, T7, F>(cx, add_help, e) && (opt_error::<T1>(cx, e) || opt_error::<T2>(cx, e) || opt_error::<T3>(cx, e) || opt_error::<T4>(cx, e) || opt_error::<T5>(cx, e) || opt_error::<T6>(cx, e) || opt_error::<T7>(cx, e) || tail_error::<F>(cx, e)),
        }
    }

    fn process(cx: ParsingContext, callback: Self, add_help: bool) -> (r: Result<ParseOutcome, CliError>) {
        let mut ctx = cx;
        T1::add_documentation(&mut ctx.documentation);
        let ghost s1 = ctx.documentation;
        T2::add_documentation(&mut ctx.documentation);
        let ghost s2 = ctx.documentation;
        T3::add_documentation(&mut ctx.documentation);
        let ghost s3 = ctx.documentation;
        T4::add_documentation(&mut ctx.documentation);
        let ghost s4 = ctx.documentation;
        T5::add_documentation(&mut ctx.documentation);
        let ghost s5 = ctx.documentation;
        T6::add_documentation(&mut ctx.documentation);
        let ghost s6 = ctx.documentation;
        T7::add_documentation(&mut ctx.documentation);
        let ghost s7 = ctx.documentation;
        document_help(&mut ctx, add_help);
        let ghost start = ctx;
        assert(cx.next_arg() == start.next_arg());
        assert(started7::<T1, T2, T3, T4, T5, T6, T7>(cx, add_help, start)) by { reveal(started7); }
        proof {
            if add_help {
                assert(help_listed(s7, start.documentation));
                assert(helped7::<T1, T2, T3, T4, T5, T6, T7>(cx, start.documentation)) by { reveal(helped7); }
                assert(callback.outcome(cx, add_help, Ok(ParseOutcome::Help(start.documentation))));
            }
        }
        let ghost wants_help = add_help && next_names(cx, help_names());
        let mut v1: Option<T1> = None;
        let mut v2: Option<T2> = None;
        let mut v3: Option<T3> = None;
        let mut v4: Option<T4> = None;
        let mut v5: Option<T5> = None;
        let mut v6: Option<T6> = None;
        let mut v7: Option<T7> = None;
        let ghost mut k: nat = 0;
        let ghost mut tr: Seq<((Option<T1>, Option<T2>, Option<T3>, Option<T4>, Option<T5>, Option<T6>, Option<T7>,), ParsingContext, bool)> = seq![((v1, v2, v3, v4, v5, v6, v7,), start, true)];
        assert(trace7::<T1, T2, T3, T4, T5, T6, T7>(tr, start, 0, (v1, v2, v3, v4, v5, v6, v7,), ctx, true)) by { reveal(trace7); }
        loop
            invariant_except_break
                trace7::<T1, T2, T3, T4, T5, T6, T7>(tr, start, k, (v1, v2, v3, v4, v5, v6, v7,), ctx, true),
            invariant
                ctx.cursor <= ctx.args@.len(),
                ctx.documentation.wf(),
                ctx.documentation == start.documentation,
                ctx.args@ == start.args@,
                start.args@ == cx.args@,
                start.cursor == cx.cursor,
                ctx.cursor >= start.cursor,
                wants_help == (add_help && next_names(start, help_names())),
                wants_help == (add_help && next_names(cx, help_names())),
                wants_help ==> ctx.cursor == start.cursor,
                ctx.cursor == start.cursor ==> v1.is_none() && v2.is_none() && v3.is_none() && v4.is_none() && v5.is_none() && v6.is_none() && v7.is_none(),
                add_help ==> callback.outcome(cx, add_help, Ok(ParseOutcome::Help(start.documentation))),
                started7::<T1, T2, T3, T4, T5, T6, T7>(cx, add_help, start),
            ensures
                !wants_help,
                started7::<T1, T2, T3, T4, T5, T6, T7>(cx, add_help, start),
                reach7::<T1, T2, T3, T4, T5, T6, T7>(start, k, (v1, v2, v3, v4, v5, v6, v7,), ctx, false),
                ctx.cursor <= ctx.args@.len(),
                ctx.args@ == cx.args@,
                ctx.cursor >= cx.cursor,
            decreases ctx.args@.len() - ctx.cursor,
        {
            let ghost at_start = ctx;
            proof {
                if wants_help {
                    assert(at_start.next_arg() == start.next_arg());
                }
            }
            if help_asked(&mut ctx, add_help) {
                return Ok(ParseOutcome::Help(ctx.documentation));
            }
            assert(!wants_help);
            let ghost vs_old = (v1, v2, v3, v4, v5, v6, v7,);
            let ghost c_old = ctx;
            assert(trace7::<T1, T2, T3, T4, T5, T6, T7>(tr, start, k, vs_old, c_old, true));
            assert(reach7::<T1, T2, T3, T4, T5, T6, T7>(start, k, vs_old, c_old, true)) by { reveal(reach7); }
            let (rr, nvs, ncx) = take_round7::<T1, T2, T3, T4, T5, T6, T7>((v1, v2, v3, v4, v5, v6, v7,), ctx);
            ctx = ncx;
            let (n1, n2, n3, n4, n5, n6, n7,) = nvs;
            v1 = n1;
            v2 = n2;
            v3 = n3;
            v4 = n4;
            v5 = n5;
            v6 = n6;
            v7 = n7;
            let progress = match rr {
                Ok(p) => p,
                Err(e) => {
                    assert(failed7::<T1, T2, T3, T4, T5, T6, T7, F>(cx, add_help, e)) by { reveal(failed7); }
                    proof {
                        if opt_error::<T1>(c_old, e) { lemma_opt_error_from::<T1>(cx, c_old, e); }
                        if opt_error::<T2>(c_old, e) { lemma_opt_error_from::<T2>(cx, c_old, e); }
                        if opt_error::<T3>(c_old, e) { lemma_opt_error_from::<T3>(cx, c_old, e); }
                        if opt_error::<T4>(c_old, e) { lemma_opt_error_from::<T4>(cx, c_old, e); }
                        if opt_error::<T5>(c_old, e) { lemma_opt_error_from::<T5>(cx, c_old, e); }
                        if opt_error::<T6>(c_old, e) { lemma_opt_error_from::<T6>(cx, c_old, e); }
                        if opt_error::<T7>(c_old, e) { lemma_opt_error_from::<T7>(cx, c_old, e); }
                    }
                    return Err(e);
                },
            };
            proof {
                lemma_trace_push7::<T1, T2, T3, T4, T5, T6, T7>(tr, start, k, vs_old, c_old, (v1, v2, v3, v4, v5, v6, v7,), ctx, progress);
                tr = tr.push(((v1, v2, v3, v4, v5, v6, v7,), ctx, progress));
                k = k + 1;
            }
            if !progress {
                assert(reach7::<T1, T2, T3, T4, T5, T6, T7>(start, k, (v1, v2, v3, v4, v5, v6, v7,), ctx, false)) by { reveal(reach7); }
                break;
            }
        }
        let ghost tail_cx = ctx;
        let ghost vs_end = (v1, v2, v3, v4, v5, v6, v7,);
        let rt = F::try_parse_self(ctx);
        let tail = match rt {
            Ok(t) => t,
            Err(e) => {
                assert(F::tail_takes(tail_cx, Err::<F, CliError>(e)));
                assert(reach7::<T1, T2, T3, T4, T5, T6, T7>(start, k, vs_end, tail_cx, false)) by { reveal(reach7); }
                assert(failed7::<T1, T2, T3, T4, T5, T6, T7, F>(cx, add_help, e)) by { reveal(failed7); }
                return Err(e);
            },
        };
        assert(F::tail_takes(tail_cx, Ok::<F, CliError>(tail)));
        let ghost gt = tail;
        let fr1 = T1::finalize(v1);
        let x1 = match fr1 {
            Ok(x) => x,
            Err(e) => {
                assert(T1::finalizes(vs_end.0, Err::<T1, CliError>(e)));
                assert(fin_err7::<T1, T2, T3, T4, T5, T6, T7>(vs_end, e)) by { reveal(fin_err7); }
                assert(reach7::<T1, T2, T3, T4, T5, T6, T7>(start, k, vs_end, tail_cx, false)) by { reveal(reach7); }
                assert(failed7::<T1, T2, T3, T4, T5, T6, T7, F>(cx, add_help, e)) by { reveal(failed7); }
                return Err(e);
            },
        };
        assert(T1::finalizes(vs_end.0, Ok::<T1, CliError>(x1)));
        let ghost gx1 = x1;
        let fr2 = T2::finalize(v2);
        let x2 = match fr2 {
            Ok(x) => x,
            Err(e) => {
                assert(T2::finalizes(vs_end.1, Err::<T2, CliError>(e)));
                assert(fin_err7::<T1, T2, T3, T4, T5, T6, T7>(vs_end, e)) by { reveal(fin_err7); }
                assert(reach7::<T1, T2, T3, T4, T5, T6, T7>(start, k, vs_end, tail_cx, false)) by { reveal(reach7); }
                assert(failed7::<T1, T2, T3, T4, T5, T6, T7, F>(cx, add_help, e)) by { reveal(failed7); }
                return Err(e);
            },
        };
        assert(T2::finalizes(vs_end.1, Ok::<T2, CliError>(x2)));
        let ghost gx2 = x2;
        let fr3 = T3::finalize(v3);
        let x3 = match fr3 {
            Ok(x) => x,
            Err(e) => {
                assert(T3::finalizes(vs_end.2, Err::<T3, CliError>(e)));
                assert(fin_err7::<T1, T2, T3, T4, T5, T6, T7>(vs_end, e)) by { reveal(fin_err7); }
                assert(reach7::<T1, T2, T3, T4, T5, T6, T7>(start, k, vs_end, tail_cx, false)) by { reveal(reach7); }
                assert(failed7::<T1, T2, T3, T4, T5, T6, T7, F>(cx, add_help, e)) by { reveal(failed7); }
                return Err(e);
            },
        };
        assert(T3::finalizes(vs_end.2, Ok::<T3, CliError>(x3)));
        let ghost gx3 = x3;
        let fr4 = T4::finalize(v4);
        let x4 = match fr4 {
            Ok(x) => x,
            Err(e) => {
                assert(T4::finalizes(vs_end.3, Err::<T4, CliError>(e)));
                assert(fin_err7::<T1, T2, T3, T4, T5, T6, T7>(vs_end, e)) by { reveal(fin_err7); }
                assert(reach7::<T1, T2, T3, T4, T5, T6, T7>(start, k, vs_end, tail_cx, false)) by { reveal(reach7); }
                assert(failed7::<T1, T2, T3, T4, T5, T6, T7, F>(cx, add_help, e)) by { reveal(failed7); }
                return Err(e);
            },
        };
        assert(T4::finalizes(vs_end.3, Ok::<T4, CliError>(x4)));
        let ghost gx4 = x4;
        let fr5 = T5::finalize(v5);
        let x5 = match fr5 {
            Ok(x) => x,
            Err(e) => {
                assert(T5::finalizes(vs_end.4, Err::<T5, CliError>(e)));
                assert(fin_err7::<T1, T2, T3, T4, T5, T6, T7>(vs_end, e)) by { reveal(fin_err7); }
                assert(reach7::<T1, T2, T3, T4, T5, T6, T7>(start, k, vs_end, tail_cx, false)) by { reveal(reach7); }
                assert(failed7::<T1, T2, T3, T4, T5, T6, T7, F>(cx, add_help, e)) by { reveal(failed7); }
                return Err(e);
            },
        };
        assert(T5::finalizes(vs_end.4, Ok::<T5, CliError>(x5)));
        let ghost gx5 = x5;
        let fr6 = T6::finalize(v6);
        let x6 = match fr6 {
            Ok(x) => x,
            Err(e) => {
                assert(T6::finalizes(vs_end.5, Err::<T6, CliError>(e)));
                assert(fin_err7::<T1, T2, T3, T4, T5, T6, T7>(vs_end, e)) by { reveal(fin_err7); }
                assert(reach7::<T1, T2, T3, T4, T5, T6, T7>(start, k, vs_end, tail_cx, false)) by { reveal(reach7); }
                assert(failed7::<T1, T2, T3, T4, T5, T6, T7, F>(cx, add_help, e)) by { reveal(failed7); }
                return Err(e);
            },
        };
        assert(T6::finalizes(vs_end.5, Ok::<T6, CliError>(x6)));
        let ghost gx6 = x6;
        let fr7 = T7::finalize(v7);
        let x7 = match fr7 {
            Ok(x) => x,
            Err(e) => {
                assert(T7::finalizes(vs_end.6, Err::<T7, CliError>(e)));
                assert(fin_err7::<T1, T2, T3, T4, T5, T6, T7>(vs_end, e)) by { reveal(fin_err7); }
                assert(reach7::<T1, T2, T3, T4, T5, T6, T7>(start, k, vs_end, tail_cx, false)) by { reveal(reach7); }
                assert(failed7::<T1, T2, T3, T4, T5, T6, T7, F>(cx, add_help, e)) by { reveal(failed7); }
                return Err(e);
            },
        };
        assert(T7::finalizes(vs_end.6, Ok::<T7, CliError>(x7)));
        let ghost gx7 = x7;
        callback(x1, x2, x3, x4, x5, x6, x7, tail);
        assert(call_ensures(callback, (gx1, gx2, gx3, gx4, gx5, gx6, gx7, gt), ()));
        assert(reach7::<T1, T2, T3, T4, T5, T6, T7>(start, k, vs_end, tail_cx, false)) by { reveal(reach7); }
        assert(done7::<C, T1, T2, T3, T4, T5, T6, T7, F>(callback, cx, add_help)) by { reveal(done7); }
        Ok(ParseOutcome::Done)
    }
}

impl<C: FnOnce(T1, T2, T3, T4, T5, T6, T7, T8, F), T1: Opt, T2: Opt, T3: Opt, T4: Opt, T5: Opt, T6: Opt, T7: Opt, T8: Opt, F: FinalOpt> ParsingCallback<(T1, T2, T3, T4, T5, T6, T7, T8, F)> for C {
    open spec fn accepts_all(&self) -> bool {
        forall|a: T1, b: T2, c: T3, d: T4, e: T5, g: T6, h: T7, i: T8, t: F| call_requires(*self, (a, b, c, d, e, g, h, i, t))
    }

    /// Done: the callback was called with the final values of the options
    /// and the value the remaining arguments gave. Help: the documentation
    /// of the options and of the help flag. An error: one that taking an
    /// option, taking the remaining arguments or a final value gave.
    open spec fn outcome(&self, cx: ParsingContext, add_help: bool, r: Result<ParseOutcome, CliError>) -> bool {
        match r {
            Ok(ParseOutcome::Done) => exists|v1: Option<T1>, x1: T1, v2: Option<T2>, x2: T2, v3: Option<T3>, x3: T3, v4: Option<T4>, x4: T4, v5: Option<T5>, x5: T5, v6: Option<T6>, x6: T6, v7: Option<T7>, x7: T7, v8: Option<T8>, x8: T8, c: ParsingContext, t: F|
                #![trigger T1::finalizes(v1, Ok::<T1, CliError>(x1)), T2::finalizes(v2, Ok::<T2, CliError>(x2)), T3::finalizes(v3, Ok::<T3, CliError>(x3)), T4::finalizes(v4, Ok::<T4, CliError>(x4)), T5::finalizes(v5, Ok::<T5, CliError>(x5)), T6::finalizes(v6, Ok::<T6, CliError>(x6)), T7::finalizes(v7, Ok::<T7, CliError>(x7)), T8::finalizes(v8, Ok::<T8, CliError>(x8)), F::tail_takes(c, Ok::<F, CliError>(t))]
                T1::finalizes(v1, Ok::<T1, CliError>(x1)) &&
                T2::finalizes(v2, Ok::<T2, CliError>(x2)) &&
                T3::finalizes(v3, Ok::<T3, CliError>(x3)) &&
                T4::finalizes(v4, Ok::<T4, CliError>(x4)) &&
                T5::finalizes(v5, Ok::<T5, CliError>(x5)) &&
                T6::finalizes(v6, Ok::<T6, CliError>(x6)) &&
                T7::finalizes(v7, Ok::<T7, CliError>(x7)) &&
                T8::finalizes(v8, Ok::<T8, CliError>(x8)) &&
                F::tail_takes(c, Ok::<F, CliError>(t)) && after_options(cx, c) && call_ensures(*self, (x1, x2, x3, x4, x5, x6, x7, x8, t), ()),
            Ok(ParseOutcome::Help(d)) => add_help && exists|s1: DocumentationStore, s2: DocumentationStore, s3: DocumentationStore, s4: DocumentationStore, s5: DocumentationStore, s6: DocumentationStore, s7: DocumentationStore, s8: DocumentationStore|
                #![trigger T1::documents(cx.documentation, s1), T2::documents(s1, s2), T3::documents(s2, s3), T4::documents(s3, s4), T5::documents(s4, s5), T6::documents(s5, s6), T7::documents(s6, s7), T8::documents(s7, s8)]
                T1::documents(cx.documentation, s1) && T2::documents(s1, s2) && T3::documents(s2, s3) && T4::documents(s3, s4) && T5::documents(s4, s5) && T6::documents(s5, s6) && T7::documents(s6, s7) && T8::documents(s7, s8) && help_listed(s8, d),
            Err(e) => opt_error::<T1>(cx, e) || opt_error::<T2>(cx, e) || opt_error::<T3>(cx, e) || opt_error::<T4>(cx, e) || opt_error::<T5>(cx, e) || opt_error::<T6>(cx, e) || opt_error::<T7>(cx, e) || opt_error::<T8>(cx, e) || tail_error::<F>(cx, e),
        }
    }

    fn process(cx: ParsingContext, callback: Self, add_help: bool) -> (r: Result<ParseOutcome, CliError>) {
        let mut ctx = cx;
        T1::add_documentation(&mut ctx.documentation);
        let ghost s1 = ctx.documentation;
        T2::add_documentation(&mut ctx.documentation);
        let ghost s2 = ctx.documentation;
        T3::add_documentation(&mut ctx.documentation);
        let ghost s3 = ctx.documentation;
        T4::add_documentation(&mut ctx.documentation);
        let ghost s4 = ctx.documentation;
        T5::add_documentation(&mut ctx.documentation);
        let ghost s5 = ctx.documentation;
        T6::add_documentation(&mut ctx.documentation);
        let ghost s6 = ctx.documentation;
        T7::add_documentation(&mut ctx.documentation);
        let ghost s7 = ctx.documentation;
        T8::add_documentation(&mut ctx.documentation);
        let ghost s8 = ctx.documentation;
        document_help(&mut ctx, add_help);
        let ghost start = ctx;
        assert(cx.next_arg() == start.next_arg());
        proof {
            if add_help {
                assert(help_listed(s8, start.documentation));
                assert(callback.outcome(cx, add_help, Ok(ParseOutcome::Help(start.documentation))));
            }
        }
        let ghost wants_help = add_help && next_names(cx, help_names());
        let mut v1: Option<T1> = None;
        let mut v2: Option<T2> = None;
        let mut v3: Option<T3> = None;
        let mut v4: Option<T4> = None;
        let mut v5: Option<T5> = None;
        let mut v6: Option<T6> = None;
        let mut v7: Option<T7> = None;
        let mut v8: Option<T8> = None;
        loop
            invariant
                ctx.cursor <= ctx.args@.len(),
                ctx.documentation.wf(),
                ctx.documentation == start.documentation,
                ctx.args@ == start.args@,
                start.args@ == cx.args@,
                start.cursor == cx.cursor,
                ctx.cursor >= start.cursor,
                wants_help == (add_help && next_names(start, help_names())),
                wants_help == (add_help && next_names(cx, help_names())),
                wants_help ==> ctx.cursor == start.cursor,
                ctx.cursor == start.cursor ==> v1.is_none() && v2.is_none() && v3.is_none() && v4.is_none() && v5.is_none() && v6.is_none() && v7.is_none() && v8.is_none(),
                add_help ==> callback.outcome(cx, add_help, Ok(ParseOutcome::Help(start.documentation))),
            ensures
                !wants_help,
            decreases ctx.args@.len() - ctx.cursor,
        {
            let ghost at_start = ctx;
            proof {
                if wants_help {
                    assert(at_start.next_arg() == start.next_arg());
                }
            }
            if help_asked(&mut ctx, add_help) {
                return Ok(ParseOutcome::Help(ctx.documentation));
            }
            assert(!wants_help);
            let ghost (before1, cx1) = (v1, ctx);
            let r1 = T1::try_parse_self(&mut v1, &mut ctx);
            let m1 = match r1 {
                Ok(m) => m,
                Err(e) => {
                    assert(T1::takes(before1, cx1, Err::<bool, CliError>(e), v1, ctx));
                    assert(opt_error::<T1>(cx, e));
                    return Err(e);
                },
            };
            let ghost (before2, cx2) = (v2, ctx);
            let r2 = T2::try_parse_self(&mut v2, &mut ctx);
            let m2 = match r2 {
                Ok(m) => m,
                Err(e) => {
                    assert(T2::takes(before2, cx2, Err::<bool, CliError>(e), v2, ctx));
                    assert(opt_error::<T2>(cx, e));
                    return Err(e);
                },
            };
            let ghost (before3, cx3) = (v3, ctx);
            let r3 = T3::try_parse_self(&mut v3, &mut ctx);
            let m3 = match r3 {
                Ok(m) => m,
                Err(e) => {
                    assert(T3::takes(before3, cx3, Err::<bool, CliError>(e), v3, ctx));
                    assert(opt_error::<T3>(cx, e));
                    return Err(e);
                },
            };
            let ghost (before4, cx4) = (v4, ctx);
            let r4 = T4::try_parse_self(&mut v4, &mut ctx);
            let m4 = match r4 {
                Ok(m) => m,
                Err(e) => {
                    assert(T4::takes(before4, cx4, Err::<bool, CliError>(e), v4, ctx));
                    assert(opt_error::<T4>(cx, e));
                    return Err(e);
                },
            };
            let ghost (before5, cx5) = (v5, ctx);
            let r5 = T5::try_parse_self(&mut v5, &mut ctx);
            let m5 = match r5 {
                Ok(m) => m,
                Err(e) => {
                    assert(T5::takes(before5, cx5, Err::<bool, CliError>(e), v5, ctx));
                    assert(opt_error::<T5>(cx, e));
                    return Err(e);
                },
            };
            let ghost (before6, cx6) = (v6, ctx);
            let r6 = T6::try_parse_self(&mut v6, &mut ctx);
            let m6 = match r6 {
                Ok(m) => m,
                Err(e) => {
                    assert(T6::takes(before6, cx6, Err::<bool, CliError>(e), v6, ctx));
                    assert(opt_error::<T6>(cx, e));
                    return Err(e);
                },
            };
            let ghost (before7, cx7) = (v7, ctx);
            let r7 = T7::try_parse_self(&mut v7, &mut ctx);
            let m7 = match r7 {
                Ok(m) => m,
                Err(e) => {
                    assert(T7::takes(before7, cx7, Err::<bool, CliError>(e), v7, ctx));
                    assert(opt_error::<T7>(cx, e));
                    return Err(e);
                },
            };
            let ghost (before8, cx8) = (v8, ctx);
            let r8 = T8::try_parse_self(&mut v8, &mut ctx);
            let m8 = match r8 {
                Ok(m) => m,
                Err(e) => {
                    assert(T8::takes(before8, cx8, Err::<bool, CliError>(e), v8, ctx));
                    assert(opt_error::<T8>(cx, e));
                    return Err(e);
                },
            };
            if !(m1 || m2 || m3 || m4 || m5 || m6 || m7 || m8) {
                break;
            }
        }
        let ghost tail_cx = ctx;
        let rt = F::try_parse_self(ctx);
        let tail = match rt {
            Ok(t) => t,
            Err(e) => {
                assert(F::tail_takes(tail_cx, Err::<F, CliError>(e)));
                assert(tail_error::<F>(cx, e));
                return Err(e);
            },
        };
        let ghost fin1 = v1;
        let fr1 = T1::finalize(v1);
        let x1 = match fr1 {
            Ok(x) => x,
            Err(e) => {
                assert(T1::finalizes(fin1, Err::<T1, CliError>(e)));
                assert(opt_error::<T1>(cx, e));
                return Err(e);
            },
        };
        assert(T1::finalizes(fin1, Ok::<T1, CliError>(x1)));
        let ghost fin2 = v2;
        let fr2 = T2::finalize(v2);
        let x2 = match fr2 {
            Ok(x) => x,
            Err(e) => {
                assert(T2::finalizes(fin2, Err::<T2, CliError>(e)));
                assert(opt_error::<T2>(cx, e));
                return Err(e);
            },
        };
        assert(T2::finalizes(fin2, Ok::<T2, CliError>(x2)));
        let ghost fin3 = v3;
        let fr3 = T3::finalize(v3);
        let x3 = match fr3 {
            Ok(x) => x,
            Err(e) => {
                assert(T3::finalizes(fin3, Err::<T3, CliError>(e)));
                assert(opt_error::<T3>(cx, e));
                return Err(e);
            },
        };
        assert(T3::finalizes(fin3, Ok::<T3, CliError>(x3)));
        let ghost fin4 = v4;
        let fr4 = T4::finalize(v4);
        let x4 = match fr4 {
            Ok(x) => x,
            Err(e) => {
                assert(T4::finalizes(fin4, Err::<T4, CliError>(e)));
                assert(opt_error::<T4>(cx, e));
                return Err(e);
            },
        };
        assert(T4::finalizes(fin4, Ok::<T4, CliError>(x4)));
        let ghost fin5 = v5;
        let fr5 = T5::finalize(v5);
        let x5 = match fr5 {
            Ok(x) => x,
            Err(e) => {
                assert(T5::finalizes(fin5, Err::<T5, CliError>(e)));
                assert(opt_error::<T5>(cx, e));
                return Err(e);
            },
        };
        assert(T5::finalizes(fin5, Ok::<T5, CliError>(x5)));
        let ghost fin6 = v6;
        let fr6 = T6::finalize(v6);
        let x6 = match fr6 {
            Ok(x) => x,
            Err(e) => {
                assert(T6::finalizes(fin6, Err::<T6, CliError>(e)));
                assert(opt_error::<T6>(cx, e));
                return Err(e);
            },
        };
        assert(T6::finalizes(fin6, Ok::<T6, CliError>(x6)));
        let ghost fin7 = v7;
        let fr7 = T7::finalize(v7);
        let x7 = match fr7 {
            Ok(x) => x,
            Err(e) => {
                assert(T7::finalizes(fin7, Err::<T7, CliError>(e)));
                assert(opt_error::<T7>(cx, e));
                return Err(e);
            },
        };
        assert(T7::finalizes(fin7, Ok::<T7, CliError>(x7)));
        let ghost fin8 = v8;
        let fr8 = T8::finalize(v8);
        let x8 = match fr8 {
            Ok(x) => x,
            Err(e) => {
                assert(T8::finalizes(fin8, Err::<T8, CliError>(e)));
                assert(opt_error::<T8>(cx, e));
                return Err(e);
            },
        };
        assert(T8::finalizes(fin8, Ok::<T8, CliError>(x8)));
        assert(F::tail_takes(tail_cx, Ok::<F, CliError>(tail)));
        let ghost gt = tail;
        let ghost gx1 = x1;
        let ghost gx2 = x2;
        let ghost gx3 = x3;
        let ghost gx4 = x4;
        let ghost gx5 = x5;
        let ghost gx6 = x6;
        let ghost gx7 = x7;
        let ghost gx8 = x8;
        callback(x1, x2, x3, x4, x5, x6, x7, x8, tail);
        assert(call_ensures(callback, (gx1, gx2, gx3, gx4, gx5, gx6, gx7, gx8, gt), ()));
        Ok(ParseOutcome::Done)
    }
}

impl<C: FnOnce(T1, T2, T3, T4, T5, T6, T7, T8, T9, F), T1: Opt, T2: Opt, T3: Opt, T4: Opt, T5: Opt, T6: Opt, T7: Opt, T8: Opt, T9: Opt, F: FinalOpt> ParsingCallback<(T1, T2, T3, T4, T5, T6, T7, T8, T9, F)> for C {
    open spec fn accepts_all(&self) -> bool {
        forall|a: T1, b: T2, c: T3, d: T4, e: T5, g: T6, h: T7, i: T8, j: T9, t: F| call_requires(*self, (a, b, c, d, e, g, h, i, j, t))
    }

    /// Done: the callback was called with the final values of the options
    /// and the value the remaining arguments gave. Help: the documentation
    /// of the options and of the help flag. An error: one that taking an
    /// option, taking the remaining arguments or a final value gave.
    open spec fn outcome(&self, cx: ParsingContext, add_help: bool, r: Result<ParseOutcome, CliError>) -> bool {
        match r {
            Ok(ParseOutcome::Done) => exists|v1: Option<T1>, x1: T1, v2: Option<T2>, x2: T2, v3: Option<T3>, x3: T3, v4: Option<T4>, x4: T4, v5: Option<T5>, x5: T5, v6: Option<T6>, x6: T6, v7: Option<T7>, x7: T7, v8: Option<T8>, x8: T8, v9: Option<T9>, x9: T9, c: ParsingContext, t: F|
                #![trigger T1::finalizes(v1, Ok::<T1, CliError>(x1)), T2::finalizes(v2, Ok::<T2, CliError>(x2)), T3::finalizes(v3, Ok::<T3, CliError>(x3)), T4::finalizes(v4, Ok::<T4, CliError>(x4)), T5::finalizes(v5, Ok::<T5, CliError>(x5)), T6::finalizes(v6, Ok::<T6, CliError>(x6)), T7::finalizes(v7, Ok::<T7, CliError>(x7)), T8::finalizes(v8, Ok::<T8, CliError>(x8)), T9::finalizes(v9, Ok::<T9, CliError>(x9)), F::tail_takes(c, Ok::<F, CliError>(t))]
                T1::finalizes(v1, Ok::<T1, CliError>(x1)) &&
                T2::finalizes(v2, Ok::<T2, CliError>(x2)) &&
                T3::finalizes(v3, Ok::<T3, CliError>(x3)) &&
                T4::finalizes(v4, Ok::<T4, CliError>(x4)) &&
                T5::finalizes(v5, Ok::<T5, CliError>(x5)) &&
                T6::finalizes(v6, Ok::<T6, CliError>(x6)) &&
                T7::finalizes(v7, Ok::<T7, CliError>(x7)) &&
                T8::finalizes(v8, Ok::<T8, CliError>(x8)) &&
                T9::finalizes(v9, Ok::<T9, CliError>(x9)) &&
                F::tail_takes(c, Ok::<F, CliError>(t)) && after_options(cx, c) && call_ensures(*self, (x1, x2, x3, x4, x5, x6, x7, x8, x9, t), ()),
            Ok(ParseOutcome::Help(d)) => add_help && exists|s1: DocumentationStore, s2: DocumentationStore, s3: DocumentationStore, s4: DocumentationStore, s5: DocumentationStore, s6: DocumentationStore, s7: DocumentationStore, s8: DocumentationStore, s9: DocumentationStore|
                #![trigger T1::documents(cx.documentation, s1), T2::documents(s1, s2), T3::documents(s2, s3), T4::documents(s3, s4), T5::documents(s4, s5), T6::documents(s5, s6), T7::documents(s6, s7), T8::documents(s7, s8), T9::documents(s8, s9)]
                T1::documents(cx.documentation, s1) && T2::documents(s1, s2) && T3::documents(s2, s3) && T4::documents(s3, s4) && T5::documents(s4, s5) && T6::documents(s5, s6) && T7::documents(s6, s7) && T8::documents(s7, s8) && T9::documents(s8, s9) && help_listed(s9, d),
            Err(e) => opt_error::<T1>(cx, e) || opt_error::<T2>(cx, e) || opt_error::<T3>(cx, e) || opt_error::<T4>(cx, e) || opt_error::<T5>(cx, e) || opt_error::<T6>(cx, e) || opt_error::<T7>(cx, e) || opt_error::<T8>(cx, e) || opt_error::<T9>(cx, e) || tail_error::<F>(cx, e),
        }
    }

    fn process(cx: ParsingContext, callback: Self, add_help: bool) -> (r: Result<ParseOutcome, CliError>) {
        let mut ctx = cx;
        T1::add_documentation(&mut ctx.documentation);
        let ghost s1 = ctx.documentation;
        T2::add_documentation(&mut ctx.documentation);
        let ghost s2 = ctx.documentation;
        T3::add_documentation(&mut ctx.documentation);
        let ghost s3 = ctx.documentation;
        T4::add_documentation(&mut ctx.documentation);
        let ghost s4 = ctx.documentation;
        T5::add_documentation(&mut ctx.documentation);
        let ghost s5 = ctx.documentation;
        T6::add_documentation(&mut ctx.documentation);
        let ghost s6 = ctx.documentation;
        T7::add_documentation(&mut ctx.documentation);
        let ghost s7 = ctx.documentation;
        T8::add_documentation(&mut ctx.documentation);
        let ghost s8 = ctx.documentation;
        T9::add_documentation(&mut ctx.documentation);
        let ghost s9 = ctx.documentation;
        document_help(&mut ctx, add_help);
        let ghost start = ctx;
        assert(cx.next_arg() == start.next_arg());
        proof {
            if add_help {
                assert(help_listed(s9, start.documentation));
                assert(callback.outcome(cx, add_help, Ok(ParseOutcome::Help(start.documentation))));
            }
        }
        let ghost wants_help = add_help && next_names(cx, help_names());
        let mut v1: Option<T1> = None;
        let mut v2: Option<T2> = None;
        let mut v3: Option<T3> = None;
        let mut v4: Option<T4> = None;
        let mut v5: Option<T5> = None;
        let mut v6: Option<T6> = None;
        let mut v7: Option<T7> = None;
        let mut v8: Option<T8> = None;
        let mut v9: Option<T9> = None;
        loop
            invariant
                ctx.cursor <= ctx.args@.len(),
                ctx.documentation.wf(),
                ctx.documentation == start.documentation,
                ctx.args@ == start.args@,
                start.args@ == cx.args@,
                start.cursor == cx.cursor,
                ctx.cursor >= start.cursor,
                wants_help == (add_help && next_names(start, help_names())),
                wants_help == (add_help && next_names(cx, help_names())),
                wants_help ==> ctx.cursor == start.cursor,
                ctx.cursor == start.cursor ==> v1.is_none() && v2.is_none() && v3.is_none() && v4.is_none() && v5.is_none() && v6.is_none() && v7.is_none() && v8.is_none() && v9.is_none(),
                add_help ==> callback.outcome(cx, add_help, Ok(ParseOutcome::Help(start.documentation))),
            ensures
                !wants_help,
            decreases ctx.args@.len() - ctx.cursor,
        {
            let ghost at_start = ctx;
            proof {
                if wants_help {
                    assert(at_start.next_arg() == start.next_arg());
                }
            }
            if help_asked(&mut ctx, add_help) {
                return Ok(ParseOutcome::Help(ctx.documentation));
            }
            assert(!wants_help);
            let ghost (before1, cx1) = (v1, ctx);
            let r1 = T1::try_parse_self(&mut v1, &mut ctx);
            let m1 = match r1 {
                Ok(m) => m,
                Err(e) => {
                    assert(T1::takes(before1, cx1, Err::<bool, CliError>(e), v1, ctx));
                    assert(opt_error::<T1>(cx, e));
                    return Err(e);
                },
            };
            let ghost (before2, cx2) = (v2, ctx);
            let r2 = T2::try_parse_self(&mut v2, &mut ctx);
            let m2 = match r2 {
                Ok(m) => m,
                Err(e) => {
                    assert(T2::takes(before2, cx2, Err::<bool, CliError>(e), v2, ctx));
                    assert(opt_error::<T2>(cx, e));
                    return Err(e);
                },
            };
            let ghost (before3, cx3) = (v3, ctx);
            let r3 = T3::try_parse_self(&mut v3, &mut ctx);
            let m3 = match r3 {
                Ok(m) => m,
                Err(e) => {
                    assert(T3::takes(before3, cx3, Err::<bool, CliError>(e), v3, ctx));
                    assert(opt_error::<T3>(cx, e));
                    return Err(e);
                },
            };
            let ghost (before4, cx4) = (v4, ctx);
            let r4 = T4::try_parse_self(&mut v4, &mut ctx);
            let m4 = match r4 {
                Ok(m) => m,
                Err(e) => {
                    assert(T4::takes(before4, cx4, Err::<bool, CliError>(e), v4, ctx));
                    assert(opt_error::<T4>(cx, e));
                    return Err(e);
                },
            };
            let ghost (before5, cx5) = (v5, ctx);
            let r5 = T5::try_parse_self(&mut v5, &mut ctx);
            let m5 = match r5 {
                Ok(m) => m,
                Err(e) => {
                    assert(T5::takes(before5, cx5, Err::<bool, CliError>(e), v5, ctx));
                    assert(opt_error::<T5>(cx, e));
                    return Err(e);
                },
            };
            let ghost (before6, cx6) = (v6, ctx);
            let r6 = T6::try_parse_self(&mut v6, &mut ctx);
            let m6 = match r6 {
                Ok(m) => m,
                Err(e) => {
                    assert(T6::takes(before6, cx6, Err::<bool, CliError>(e), v6, ctx));
                    assert(opt_error::<T6>(cx, e));
                    return Err(e);
                },
            };
            let ghost (before7, cx7) = (v7, ctx);
            let r7 = T7::try_parse_self(&mut v7, &mut ctx);
            let m7 = match r7 {
                Ok(m) => m,
                Err(e) => {
                    assert(T7::takes(before7, cx7, Err::<bool, CliError>(e), v7, ctx));
                    assert(opt_error::<T7>(cx, e));
                    return Err(e);
                },
            };
            let ghost (before8, cx8) = (v8, ctx);
            let r8 = T8::try_parse_self(&mut v8, &mut ctx);
            let m8 = match r8 {
                Ok(m) => m,
                Err(e) => {
                    assert(T8::takes(before8, cx8, Err::<bool, CliError>(e), v8, ctx));
                    assert(opt_error::<T8>(cx, e));
                    return Err(e);
                },
            };
            let ghost (before9, cx9) = (v9, ctx);
            let r9 = T9::try_parse_self(&mut v9, &mut ctx);
            let m9 = match r9 {
                Ok(m) => m,
                Err(e) => {
                    assert(T9::takes(before9, cx9, Err::<bool, CliError>(e), v9, ctx));
                    assert(opt_error::<T9>(cx, e));
                    return Err(e);
                },
            };
            if !(m1 || m2 || m3 || m4 || m5 || m6 || m7 || m8 || m9) {
                break;
            }
        }
        let ghost tail_cx = ctx;
        let rt = F::try_parse_self(ctx);
        let tail = match rt {
            Ok(t) => t,
            Err(e) => {
                assert(F::tail_takes(tail_cx, Err::<F, CliError>(e)));
                assert(tail_error::<F>(cx, e));
                return Err(e);
            },
        };
        let ghost fin1 = v1;
        let fr1 = T1::finalize(v1);
        let x1 = match fr1 {
            Ok(x) => x,
            Err(e) => {
                assert(T1::finalizes(fin1, Err::<T1, CliError>(e)));
                assert(opt_error::<T1>(cx, e));
                return Err(e);
            },
        };
        assert(T1::finalizes(fin1, Ok::<T1, CliError>(x1)));
        let ghost fin2 = v2;
        let fr2 = T2::finalize(v2);
        let x2 = match fr2 {
            Ok(x) => x,
            Err(e) => {
                assert(T2::finalizes(fin2, Err::<T2, CliError>(e)));
                assert(opt_error::<T2>(cx, e));
                return Err(e);
            },
        };
        assert(T2::finalizes(fin2, Ok::<T2, CliError>(x2)));
        let ghost fin3 = v3;
        let fr3 = T3::finalize(v3);
        let x3 = match fr3 {
            Ok(x) => x,
            Err(e) => {
                assert(T3::finalizes(fin3, Err::<T3, CliError>(e)));
                assert(opt_error::<T3>(cx, e));
                return Err(e);
            },
        };
        assert(T3::finalizes(fin3, Ok::<T3, CliError>(x3)));
        let ghost fin4 = v4;
        let fr4 = T4::finalize(v4);
        let x4 = match fr4 {
            Ok(x) => x,
            Err(e) => {
                assert(T4::finalizes(fin4, Err::<T4, CliError>(e)));
                assert(opt_error::<T4>(cx, e));
                return Err(e);
            },
        };
        assert(T4::finalizes(fin4, Ok::<T4, CliError>(x4)));
        let ghost fin5 = v5;
        let fr5 = T5::finalize(v5);
        let x5 = match fr5 {
            Ok(x) => x,
            Err(e) => {
                assert(T5::finalizes(fin5, Err::<T5, CliError>(e)));
                assert(opt_error::<T5>(cx, e));
                return Err(e);
            },
        };
        assert(T5::finalizes(fin5, Ok::<T5, CliError>(x5)));
        let ghost fin6 = v6;
        let fr6 = T6::finalize(v6);
        let x6 = match fr6 {
            Ok(x) => x,
            Err(e) => {
                assert(T6::finalizes(fin6, Err::<T6, CliError>(e)));
                assert(opt_error::<T6>(cx, e));
                return Err(e);
            },
        };
        assert(T6::finalizes(fin6, Ok::<T6, CliError>(x6)));
        let ghost fin7 = v7;
        let fr7 = T7::finalize(v7);
        let x7 = match fr7 {
            Ok(x) => x,
            Err(e) => {
                assert(T7::finalizes(fin7, Err::<T7, CliError>(e)));
                assert(opt_error::<T7>(cx, e));
                return Err(e);
            },
        };
        assert(T7::finalizes(fin7, Ok::<T7, CliError>(x7)));
        let ghost fin8 = v8;
        let fr8 = T8::finalize(v8);
        let x8 = match fr8 {
            Ok(x) => x,
            Err(e) => {
                assert(T8::finalizes(fin8, Err::<T8, CliError>(e)));
                assert(opt_error::<T8>(cx, e));
                return Err(e);
            },
        };
        assert(T8::finalizes(fin8, Ok::<T8, CliError>(x8)));
        let ghost fin9 = v9;
        let fr9 = T9::finalize(v9);
        let x9 = match fr9 {
            Ok(x) => x,
            Err(e) => {
                assert(T9::finalizes(fin9, Err::<T9, CliError>(e)));
                assert(opt_error::<T9>(cx, e));
                return Err(e);
            },
        };
        assert(T9::finalizes(fin9, Ok::<T9, CliError>(x9)));
        assert(F::tail_takes(tail_cx, Ok::<F, CliError>(tail)));
        let ghost gt = tail;
        let ghost gx1 = x1;
        let ghost gx2 = x2;
        let ghost gx3 = x3;
        let ghost gx4 = x4;
        let ghost gx5 = x5;
        let ghost gx6 = x6;
        let ghost gx7 = x7;
        let ghost gx8 = x8;
        let ghost gx9 = x9;
        callback(x1, x2, x3, x4, x5, x6, x7, x8, x9, tail);
        assert(call_ensures(callback, (gx1, gx2, gx3, gx4, gx5, gx6, gx7, gx8, gx9, gt), ()));
        Ok(ParseOutcome::Done)
    }
}

impl<C: FnOnce(T1, T2, T3, T4, T5, T6, T7, T8, T9, T10, F), T1: Opt, T2: Opt, T3: Opt, T4: Opt, T5: Opt, T6: Opt, T7: Opt, T8: Opt, T9: Opt, T10: Opt, F: FinalOpt> ParsingCallback<(T1, T2, T3, T4, T5, T6, T7, T8, T9, T10, F)> for C {
    open spec fn accepts_all(&self) -> bool {
        forall|a: T1, b: T2, c: T3, d: T4, e: T5, g: T6, h: T7, i: T8, j: T9, k: T10, t: F| call_requires(*self, (a, b, c, d, e, g, h, i, j, k, t))
    }

    /// Done: the callback was called with the final values of the options
    /// and the value the remaining arguments gave. Help: the documentation
    /// of the options and of the help flag. An error: one that taking an
    /// option, taking the remaining arguments or a final value gave.
    open spec fn outcome(&self, cx: ParsingContext, add_help: bool, r: Result<ParseOutcome, CliError>) -> bool {
        match r {
            Ok(ParseOutcome::Done) => exists|v1: Option<T1>, x1: T1, v2: Option<T2>, x2: T2, v3: Option<T3>, x3: T3, v4: Option<T4>, x4: T4, v5: Option<T5>, x5: T5, v6: Option<T6>, x6: T6, v7: Option<T7>, x7: T7, v8: Option<T8>, x8: T8, v9: Option<T9>, x9: T9, v10: Option<T10>, x10: T10, c: ParsingContext, t: F|
                #![trigger T1::finalizes(v1, Ok::<T1, CliError>(x1)), T2::finalizes(v2, Ok::<T2, CliError>(x2)), T3::finalizes(v3, Ok::<T3, CliError>(x3)), T4::finalizes(v4, Ok::<T4, CliError>(x4)), T5::finalizes(v5, Ok::<T5, CliError>(x5)), T6::finalizes(v6, Ok::<T6, CliError>(x6)), T7::finalizes(v7, Ok::<T7, CliError>(x7)), T8::finalizes(v8, Ok::<T8, CliError>(x8)), T9::finalizes(v9, Ok::<T9, CliError>(x9)), T10::finalizes(v10, Ok::<T10, CliError>(x10)), F::tail_takes(c, Ok::<F, CliError>(t))]
                T1::finalizes(v1, Ok::<T1, CliError>(x1)) &&
                T2::finalizes(v2, Ok::<T2, CliError>(x2)) &&
                T3::finalizes(v3, Ok::<T3, CliError>(x3)) &&
                T4::finalizes(v4, Ok::<T4, CliError>(x4)) &&
                T5::finalizes(v5, Ok::<T5, CliError>(x5)) &&
                T6::finalizes(v6, Ok::<T6, CliError>(x6)) &&
                T7::finalizes(v7, Ok::<T7, CliError>(x7)) &&
                T8::finalizes(v8, Ok::<T8, CliError>(x8)) &&
                T9::finalizes(v9, Ok::<T9, CliError>(x9)) &&
                T10::finalizes(v10, Ok::<T10, CliError>(x10)) &&
                F::tail_takes(c, Ok::<F, CliError>(t)) && after_options(cx, c) && call_ensures(*self, (x1, x2, x3, x4, x5, x6, x7, x8, x9, x10, t), ()),
            Ok(ParseOutcome::Help(d)) => add_help && exists|s1: DocumentationStore, s2: DocumentationStore, s3: DocumentationStore, s4: DocumentationStore, s5: DocumentationStore, s6: DocumentationStore, s7: DocumentationStore, s8: DocumentationStore, s9: DocumentationStore, s10: DocumentationStore|
                #![trigger T1::documents(cx.documentation, s1), T2::documents(s1, s2), T3::documents(s2, s3), T4::documents(s3, s4), T5::documents(s4, s5), T6::documents(s5, s6), T7::documents(s6, s7), T8::documents(s7, s8), T9::documents(s8, s9), T10::documents(s9, s10)]
                T1::documents(cx.documentation, s1) && T2::documents(s1, s2) && T3::documents(s2, s3) && T4::documents(s3, s4) && T5::documents(s4, s5) && T6::documents(s5, s6) && T7::documents(s6, s7) && T8::documents(s7, s8) && T9::documents(s8, s9) && T10::documents(s9, s10) && help_listed(s10, d),
            Err(e) => opt_error::<T1>(cx, e) || opt_error::<T2>(cx, e) || opt_error::<T3>(cx, e) || opt_error::<T4>(cx, e) || opt_error::<T5>(cx, e) || opt_error::<T6>(cx, e) || opt_error::<T7>(cx, e) || opt_error::<T8>(cx, e) || opt_error::<T9>(cx, e) || opt_error::<T10>(cx, e) || tail_error::<F>(cx, e),
        }
    }

    fn process(cx: ParsingContext, callback: Self, add_help: bool) -> (r: Result<ParseOutcome, CliError>) {
        let mut ctx = cx;
        T1::add_documentation(&mut ctx.documentation);
        let ghost s1 = ctx.documentation;
        T2::add_documentation(&mut ctx.documentation);
        let ghost s2 = ctx.documentation;
        T3::add_documentation(&mut ctx.documentation);
        let ghost s3 = ctx.documentation;
        T4::add_documentation(&mut ctx.documentation);
        let ghost s4 = ctx.documentation;
        T5::add_documentation(&mut ctx.documentation);
        let ghost s5 = ctx.documentation;
        T6::add_documentation(&mut ctx.documentation);
        let ghost s6 = ctx.documentation;
        T7::add_documentation(&mut ctx.documentation);
        let ghost s7 = ctx.documentation;
        T8::add_documentation(&mut ctx.documentation);
        let ghost s8 = ctx.documentation;
        T9::add_documentation(&mut ctx.documentation);
        let ghost s9 = ctx.documentation;
        T10::add_documentation(&mut ctx.documentation);
        let ghost s10 = ctx.documentation;
        document_help(&mut ctx, add_help);
        let ghost start = ctx;
        assert(cx.next_arg() == start.next_arg());
        proof {
            if add_help {
                assert(help_listed(s10, start.documentation));
                assert(callback.outcome(cx, add_help, Ok(ParseOutcome::Help(start.documentation))));
            }
        }
        let ghost wants_help = add_help && next_names(cx, help_names());
        let mut v1: Option<T1> = None;
        let mut v2: Option<T2> = None;
        let mut v3: Option<T3> = None;
        let mut v4: Option<T4> = None;
        let mut v5: Option<T5> = None;
        let mut v6: Option<T6> = None;
        let mut v7: Option<T7> = None;
        let mut v8: Option<T8> = None;
        let mut v9: Option<T9> = None;
        let mut v10: Option<T10> = None;
        loop
            invariant
                ctx.cursor <= ctx.args@.len(),
                ctx.documentation.wf(),
                ctx.documentation == start.documentation,
                ctx.args@ == start.args@,
                start.args@ == cx.args@,
                start.cursor == cx.cursor,
                ctx.cursor >= start.cursor,
                wants_help == (add_help && next_names(start, help_names())),
                wants_help == (add_help && next_names(cx, help_names())),
                wants_help ==> ctx.cursor == start.cursor,
                ctx.cursor == start.cursor ==> v1.is_none() && v2.is_none() && v3.is_none() && v4.is_none() && v5.is_none() && v6.is_none() && v7.is_none() && v8.is_none() && v9.is_none() && v10.is_none(),
                add_help ==> callback.outcome(cx, add_help, Ok(ParseOutcome::Help(start.documentation))),
            ensures
                !wants_help,
            decreases ctx.args@.len() - ctx.cursor,
        {
            let ghost at_start = ctx;
            proof {
                if wants_help {
                    assert(at_start.next_arg() == start.next_arg());
                }
            }
            if help_asked(&mut ctx, add_help) {
                return Ok(ParseOutcome::Help(ctx.documentation));
            }
            assert(!wants_help);
            let ghost (before1, cx1) = (v1, ctx);
            let r1 = T1::try_parse_self(&mut v1, &mut ctx);
            let m1 = match r1 {
                Ok(m) => m,
                Err(e) => {
                    assert(T1::takes(before1, cx1, Err::<bool, CliError>(e), v1, ctx));
                    assert(opt_error::<T1>(cx, e));
                    return Err(e);
                },
            };
            let ghost (before2, cx2) = (v2, ctx);
            let r2 = T2::try_parse_self(&mut v2, &mut ctx);
            let m2 = match r2 {
                Ok(m) => m,
                Err(e) => {
                    assert(T2::takes(before2, cx2, Err::<bool, CliError>(e), v2, ctx));
                    assert(opt_error::<T2>(cx, e));
                    return Err(e);
                },
            };
            let ghost (before3, cx3) = (v3, ctx);
            let r3 = T3::try_parse_self(&mut v3, &mut ctx);
            let m3 = match r3 {
                Ok(m) => m,
                Err(e) => {
                    assert(T3::takes(before3, cx3, Err::<bool, CliError>(e), v3, ctx));
                    assert(opt_error::<T3>(cx, e));
                    return Err(e);
                },
            };
            let ghost (before4, cx4) = (v4, ctx);
            let r4 = T4::try_parse_self(&mut v4, &mut ctx);
            let m4 = match r4 {
                Ok(m) => m,
                Err(e) => {
                    assert(T4::takes(before4, cx4, Err::<bool, CliError>(e), v4, ctx));
                    assert(opt_error::<T4>(cx, e));
                    return Err(e);
                },
            };
            let ghost (before5, cx5) = (v5, ctx);
            let r5 = T5::try_parse_self(&mut v5, &mut ctx);
            let m5 = match r5 {
                Ok(m) => m,
                Err(e) => {
                    assert(T5::takes(before5, cx5, Err::<bool, CliError>(e), v5, ctx));
                    assert(opt_error::<T5>(cx, e));
                    return Err(e);
                },
            };
            let ghost (before6, cx6) = (v6, ctx);
            let r6 = T6::try_parse_self(&mut v6, &mut ctx);
            let m6 = match r6 {
                Ok(m) => m,
                Err(e) => {
                    assert(T6::takes(before6, cx6, Err::<bool, CliError>(e), v6, ctx));
                    assert(opt_error::<T6>(cx, e));
                    return Err(e);
                },
            };
            let ghost (before7, cx7) = (v7, ctx);
            let r7 = T7::try_parse_self(&mut v7, &mut ctx);
            let m7 = match r7 {
                Ok(m) => m,
                Err(e) => {
                    assert(T7::takes(before7, cx7, Err::<bool, CliError>(e), v7, ctx));
                    assert(opt_error::<T7>(cx, e));
                    return Err(e);
                },
            };
            let ghost (before8, cx8) = (v8, ctx);
            let r8 = T8::try_parse_self(&mut v8, &mut ctx);
            let m8 = match r8 {
                Ok(m) => m,
                Err(e) => {
                    assert(T8::takes(before8, cx8, Err::<bool, CliError>(e), v8, ctx));
                    assert(opt_error::<T8>(cx, e));
                    return Err(e);
                },
            };
            let ghost (before9, cx9) = (v9, ctx);
            let r9 = T9::try_parse_self(&mut v9, &mut ctx);
            let m9 = match r9 {
                Ok(m) => m,
                Err(e) => {
                    assert(T9::takes(before9, cx9, Err::<bool, CliError>(e), v9, ctx));
                    assert(opt_error::<T9>(cx, e));
                    return Err(e);
                },
            };
            let ghost (before10, cx10) = (v10, ctx);
            let r10 = T10::try_parse_self(&mut v10, &mut ctx);
            let m10 = match r10 {
                Ok(m) => m,
                Err(e) => {
                    assert(T10::takes(before10, cx10, Err::<bool, CliError>(e), v10, ctx));
                    assert(opt_error::<T10>(cx, e));
                    return Err(e);
                },
            };
            if !(m1 || m2 || m3 || m4 || m5 || m6 || m7 || m8 || m9 || m10) {
                break;
            }
        }
        let ghost tail_cx = ctx;
        let rt = F::try_parse_self(ctx);
        let tail = match rt {
            Ok(t) => t,
            Err(e) => {
                assert(F::tail_takes(tail_cx, Err::<F, CliError>(e)));
                assert(tail_error::<F>(cx, e));
                return Err(e);
            },
        };
        let ghost fin1 = v1;
        let fr1 = T1::finalize(v1);
        let x1 = match fr1 {
            Ok(x) => x,
            Err(e) => {
                assert(T1::finalizes(fin1, Err::<T1, CliError>(e)));
                assert(opt_error::<T1>(cx, e));
                return Err(e);
            },
        };
        assert(T1::finalizes(fin1, Ok::<T1, CliError>(x1)));
        let ghost fin2 = v2;
        let fr2 = T2::finalize(v2);
        let x2 = match fr2 {
            Ok(x) => x,
            Err(e) => {
                assert(T2::finalizes(fin2, Err::<T2, CliError>(e)));
                assert(opt_error::<T2>(cx, e));
                return Err(e);
            },
        };
        assert(T2::finalizes(fin2, Ok::<T2, CliError>(x2)));
        let ghost fin3 = v3;
        let fr3 = T3::finalize(v3);
        let x3 = match fr3 {
            Ok(x) => x,
            Err(e) => {
                assert(T3::finalizes(fin3, Err::<T3, CliError>(e)));
                assert(opt_error::<T3>(cx, e));
                return Err(e);
            },
        };
        assert(T3::finalizes(fin3, Ok::<T3, CliError>(x3)));
        let ghost fin4 = v4;
        let fr4 = T4::finalize(v4);
        let x4 = match fr4 {
            Ok(x) => x,
            Err(e) => {
                assert(T4::finalizes(fin4, Err::<T4, CliError>(e)));
                assert(opt_error::<T4>(cx, e));
                return Err(e);
            },
        };
        assert(T4::finalizes(fin4, Ok::<T4, CliError>(x4)));
        let ghost fin5 = v5;
        let fr5 = T5::finalize(v5);
        let x5 = match fr5 {
            Ok(x) => x,
            Err(e) => {
                assert(T5::finalizes(fin5, Err::<T5, CliError>(e)));
                assert(opt_error::<T5>(cx, e));
                return Err(e);
            },
        };
        assert(T5::finalizes(fin5, Ok::<T5, CliError>(x5)));
        let ghost fin6 = v6;
        let fr6 = T6::finalize(v6);
        let x6 = match fr6 {
            Ok(x) => x,
            Err(e) => {
                assert(T6::finalizes(fin6, Err::<T6, CliError>(e)));
                assert(opt_error::<T6>(cx, e));
                return Err(e);
            },
        };
        assert(T6::finalizes(fin6, Ok::<T6, CliError>(x6)));
        let ghost fin7 = v7;
        let fr7 = T7::finalize(v7);
        let x7 = match fr7 {
            Ok(x) => x,
            Err(e) => {
                assert(T7::finalizes(fin7, Err::<T7, CliError>(e)));
                assert(opt_error::<T7>(cx, e));
                return Err(e);
            },
        };
        assert(T7::finalizes(fin7, Ok::<T7, CliError>(x7)));
        let ghost fin8 = v8;
        let fr8 = T8::finalize(v8);
        let x8 = match fr8 {
            Ok(x) => x,
            Err(e) => {
                assert(T8::finalizes(fin8, Err::<T8, CliError>(e)));
                assert(opt_error::<T8>(cx, e));
                return Err(e);
            },
        };
        assert(T8::finalizes(fin8, Ok::<T8, CliError>(x8)));
        let ghost fin9 = v9;
        let fr9 = T9::finalize(v9);
        let x9 = match fr9 {
            Ok(x) => x,
            Err(e) => {
                assert(T9::finalizes(fin9, Err::<T9, CliError>(e)));
                assert(opt_error::<T9>(cx, e));
                return Err(e);
            },
        };
        assert(T9::finalizes(fin9, Ok::<T9, CliError>(x9)));
        let ghost fin10 = v10;
        let fr10 = T10::finalize(v10);
        let x10 = match fr10 {
            Ok(x) => x,
            Err(e) => {
                assert(T10::finalizes(fin10, Err::<T10, CliError>(e)));
                assert(opt_error::<T10>(cx, e));
                return Err(e);
            },
        };
        assert(T10::finalizes(fin10, Ok::<T10, CliError>(x10)));
        assert(F::tail_takes(tail_cx, Ok::<F, CliError>(tail)));
        let ghost gt = tail;
        let ghost gx1 = x1;
        let ghost gx2 = x2;
        let ghost gx3 = x3;
        let ghost gx4 = x4;
        let ghost gx5 = x5;
        let ghost gx6 = x6;
        let ghost gx7 = x7;
        let ghost gx8 = x8;
        let ghost gx9 = x9;
        let ghost gx10 = x10;
        callback(x1, x2, x3, x4, x5, x6, x7, x8, x9, x10, tail);
        assert(call_ensures(callback, (gx1, gx2, gx3, gx4, gx5, gx6, gx7, gx8, gx9, gx10, gt), ()));
        Ok(ParseOutcome::Done)
    }
}

impl<C: FnOnce(T1, T2, T3, T4, T5, T6, T7, T8, T9, T10, T11, F), T1: Opt, T2: Opt, T3: Opt, T4: Opt, T5: Opt, T6: Opt, T7: Opt, T8: Opt, T9: Opt, T10: Opt, T11: Opt, F: FinalOpt> ParsingCallback<(T1, T2, T3, T4, T5, T6, T7, T8, T9, T10, T11, F)> for C {
    open spec fn accepts_all(&self) -> bool {
        forall|a: T1, b: T2, c: T3, d: T4, e: T5, g: T6, h: T7, i: T8, j: T9, k: T10, l: T11, t: F| call_requires(*self, (a, b, c, d, e, g, h, i, j, k, l, t))
    }

    /// Done: the callback was called with the final values of the options
    /// and the value the remaining arguments gave. Help: the documentation
    /// of the options and of the help flag. An error: one that taking an
    /// option, taking the remaining arguments or a final value gave.
    open spec fn outcome(&self, cx: ParsingContext, add_help: bool, r: Result<ParseOutcome, CliError>) -> bool {
        match r {
            Ok(ParseOutcome::Done) => exists|v1: Option<T1>, x1: T1, v2: Option<T2>, x2: T2, v3: Option<T3>, x3: T3, v4: Option<T4>, x4: T4, v5: Option<T5>, x5: T5, v6: Option<T6>, x6: T6, v7: Option<T7>, x7: T7, v8: Option<T8>, x8: T8, v9: Option<T9>, x9: T9, v10: Option<T10>, x10: T10, v11: Option<T11>, x11: T11, c: ParsingContext, t: F|
                #![trigger T1::finalizes(v1, Ok::<T1, CliError>(x1)), T2::finalizes(v2, Ok::<T2, CliError>(x2)), T3::finalizes(v3, Ok::<T3, CliError>(x3)), T4::finalizes(v4, Ok::<T4, CliError>(x4)), T5::finalizes(v5, Ok::<T5, CliError>(x5)), T6::finalizes(v6, Ok::<T6, CliError>(x6)), T7::finalizes(v7, Ok::<T7, CliError>(x7)), T8::finalizes(v8, Ok::<T8, CliError>(x8)), T9::finalizes(v9, Ok::<T9, CliError>(x9)), T10::finalizes(v10, Ok::<T10, CliError>(x10)), T11::finalizes(v11, Ok::<T11, CliError>(x11)), F::tail_takes(c, Ok::<F, CliError>(t))]
                T1::finalizes(v1, Ok::<T1, CliError>(x1)) &&
                T2::finalizes(v2, Ok::<T2, CliError>(x2)) &&
                T3::finalizes(v3, Ok::<T3, CliError>(x3)) &&
                T4::finalizes(v4, Ok::<T4, CliError>(x4)) &&
                T5::finalizes(v5, Ok::<T5, CliError>(x5)) &&
                T6::finalizes(v6, Ok::<T6, CliError>(x6)) &&
                T7::finalizes(v7, Ok::<T7, CliError>(x7)) &&
                T8::finalizes(v8, Ok::<T8, CliError>(x8)) &&
                T9::finalizes(v9, Ok::<T9, CliError>(x9)) &&
                T10::finalizes(v10, Ok::<T10, CliError>(x10)) &&
                T11::finalizes(v11, Ok::<T11, CliError>(x11)) &&
                F::tail_takes(c, Ok::<F, CliError>(t)) && after_options(cx, c) && call_ensures(*self, (x1, x2, x3, x4, x5, x6, x7, x8, x9, x10, x11, t), ()),
            Ok(ParseOutcome::Help(d)) => add_help && exists|s1: DocumentationStore, s2: DocumentationStore, s3: DocumentationStore, s4: DocumentationStore, s5: DocumentationStore, s6: DocumentationStore, s7: DocumentationStore, s8: DocumentationStore, s9: DocumentationStore, s10: DocumentationStore, s11: DocumentationStore|
                #![trigger T1::documents(cx.documentation, s1), T2::documents(s1, s2), T3::documents(s2, s3), T4::documents(s3, s4), T5::documents(s4, s5), T6::documents(s5, s6), T7::documents(s6, s7), T8::documents(s7, s8), T9::documents(s8, s9), T10::documents(s9, s10), T11::documents(s10, s11)]
                T1::documents(cx.documentation, s1) && T2::documents(s1, s2) && T3::documents(s2, s3) && T4::documents(s3, s4) && T5::documents(s4, s5) && T6::documents(s5, s6) && T7::documents(s6, s7) && T8::documents(s7, s8) && T9::documents(s8, s9) && T10::documents(s9, s10) && T11::documents(s10, s11) && help_listed(s11, d),
            Err(e) => opt_error::<T1>(cx, e) || opt_error::<T2>(cx, e) || opt_error::<T3>(cx, e) || opt_error::<T4>(cx, e) || opt_error::<T5>(cx, e) || opt_error::<T6>(cx, e) || opt_error::<T7>(cx, e) || opt_error::<T8>(cx, e) || opt_error::<T9>(cx, e) || opt_error::<T10>(cx, e) || opt_error::<T11>(cx, e) || tail_error::<F>(cx, e),
        }
    }

    fn process(cx: ParsingContext, callback: Self, add_help: bool) -> (r: Result<ParseOutcome, CliError>) {
        let mut ctx = cx;
        T1::add_documentation(&mut ctx.documentation);
        let ghost s1 = ctx.documentation;
        T2::add_documentation(&mut ctx.documentation);
        let ghost s2 = ctx.documentation;
        T3::add_documentation(&mut ctx.documentation);
        let ghost s3 = ctx.documentation;
        T4::add_documentation(&mut ctx.documentation);
        let ghost s4 = ctx.documentation;
        T5::add_documentation(&mut ctx.documentation);
        let ghost s5 = ctx.documentation;
        T6::add_documentation(&mut ctx.documentation);
        let ghost s6 = ctx.documentation;
        T7::add_documentation(&mut ctx.documentation);
        let ghost s7 = ctx.documentation;
        T8::add_documentation(&mut ctx.documentation);
        let ghost s8 = ctx.documentation;
        T9::add_documentation(&mut ctx.documentation);
        let ghost s9 = ctx.documentation;
        T10::add_documentation(&mut ctx.documentation);
        let ghost s10 = ctx.documentation;
        T11::add_documentation(&mut ctx.documentation);
        let ghost s11 = ctx.documentation;
        document_help(&mut ctx, add_help);
        let ghost start = ctx;
        assert(cx.next_arg() == start.next_arg());
        proof {
            if add_help {
                assert(help_listed(s11, start.documentation));
                assert(callback.outcome(cx, add_help, Ok(ParseOutcome::Help(start.documentation))));
            }
        }
        let ghost wants_help = add_help && next_names(cx, help_names());
        let mut v1: Option<T1> = None;
        let mut v2: Option<T2> = None;
        let mut v3: Option<T3> = None;
        let mut v4: Option<T4> = None;
        let mut v5: Option<T5> = None;
        let mut v6: Option<T6> = None;
        let mut v7: Option<T7> = None;
        let mut v8: Option<T8> = None;
        let mut v9: Option<T9> = None;
        let mut v10: Option<T10> = None;
        let mut v11: Option<T11> = None;
        loop
            invariant
                ctx.cursor <= ctx.args@.len(),
                ctx.documentation.wf(),
                ctx.documentation == start.documentation,
                ctx.args@ == start.args@,
                start.args@ == cx.args@,
                start.cursor == cx.cursor,
                ctx.cursor >= start.cursor,
                wants_help == (add_help && next_names(start, help_names())),
                wants_help == (add_help && next_names(cx, help_names())),
                wants_help ==> ctx.cursor == start.cursor,
                ctx.cursor == start.cursor ==> v1.is_none() && v2.is_none() && v3.is_none() && v4.is_none() && v5.is_none() && v6.is_none() && v7.is_none() && v8.is_none() && v9.is_none() && v10.is_none() && v11.is_none(),
                add_help ==> callback.outcome(cx, add_help, Ok(ParseOutcome::Help(start.documentation))),
            ensures
                !wants_help,
            decreases ctx.args@.len() - ctx.cursor,
        {
            let ghost at_start = ctx;
            proof {
                if wants_help {
                    assert(at_start.next_arg() == start.next_arg());
                }
            }
            if help_asked(&mut ctx, add_help) {
                return Ok(ParseOutcome::Help(ctx.documentation));
            }
            assert(!wants_help);
            let ghost (before1, cx1) = (v1, ctx);
            let r1 = T1::try_parse_self(&mut v1, &mut ctx);
            let m1 = match r1 {
                Ok(m) => m,
                Err(e) => {
                    assert(T1::takes(before1, cx1, Err::<bool, CliError>(e), v1, ctx));
                    assert(opt_error::<T1>(cx, e));
                    return Err(e);
                },
            };
            let ghost (before2, cx2) = (v2, ctx);
            let r2 = T2::try_parse_self(&mut v2, &mut ctx);
            let m2 = match r2 {
                Ok(m) => m,
                Err(e) => {
                    assert(T2::takes(before2, cx2, Err::<bool, CliError>(e), v2, ctx));
                    assert(opt_error::<T2>(cx, e));
                    return Err(e);
                },
            };
            let ghost (before3, cx3) = (v3, ctx);
            let r3 = T3::try_parse_self(&mut v3, &mut ctx);
            let m3 = match r3 {
                Ok(m) => m,
                Err(e) => {
                    assert(T3::takes(before3, cx3, Err::<bool, CliError>(e), v3, ctx));
                    assert(opt_error::<T3>(cx, e));
                    return Err(e);
                },
            };
            let ghost (before4, cx4) = (v4, ctx);
            let r4 = T4::try_parse_self(&mut v4, &mut ctx);
            let m4 = match r4 {
                Ok(m) => m,
                Err(e) => {
                    assert(T4::takes(before4, cx4, Err::<bool, CliError>(e), v4, ctx));
                    assert(opt_error::<T4>(cx, e));
                    return Err(e);
                },
            };
            let ghost (before5, cx5) = (v5, ctx);
            let r5 = T5::try_parse_self(&mut v5, &mut ctx);
            let m5 = match r5 {
                Ok(m) => m,
                Err(e) => {
                    assert(T5::takes(before5, cx5, Err::<bool, CliError>(e), v5, ctx));
                    assert(opt_error::<T5>(cx, e));
                    return Err(e);
                },
            };
            let ghost (before6, cx6) = (v6, ctx);
            let r6 = T6::try_parse_self(&mut v6, &mut ctx);
            let m6 = match r6 {
                Ok(m) => m,
                Err(e) => {
                    assert(T6::takes(before6, cx6, Err::<bool, CliError>(e), v6, ctx));
                    assert(opt_error::<T6>(cx, e));
                    return Err(e);
                },
            };
            let ghost (before7, cx7) = (v7, ctx);
            let r7 = T7::try_parse_self(&mut v7, &mut ctx);
            let m7 = match r7 {
                Ok(m) => m,
                Err(e) => {
                    assert(T7::takes(before7, cx7, Err::<bool, CliError>(e), v7, ctx));
                    assert(opt_error::<T7>(cx, e));
                    return Err(e);
                },
            };
            let ghost (before8, cx8) = (v8, ctx);
            let r8 = T8::try_parse_self(&mut v8, &mut ctx);
            let m8 = match r8 {
                Ok(m) => m,
                Err(e) => {
                    assert(T8::takes(before8, cx8, Err::<bool, CliError>(e), v8, ctx));
                    assert(opt_error::<T8>(cx, e));
                    return Err(e);
                },
            };
            let ghost (before9, cx9) = (v9, ctx);
            let r9 = T9::try_parse_self(&mut v9, &mut ctx);
            let m9 = match r9 {
                Ok(m) => m,
                Err(e) => {
                    assert(T9::takes(before9, cx9, Err::<bool, CliError>(e), v9, ctx));
                    assert(opt_error::<T9>(cx, e));
                    return Err(e);
                },
            };
            let ghost (before10, cx10) = (v10, ctx);
            let r10 = T10::try_parse_self(&mut v10, &mut ctx);
            let m10 = match r10 {
                Ok(m) => m,
                Err(e) => {
                    assert(T10::takes(before10, cx10, Err::<bool, CliError>(e), v10, ctx));
                    assert(opt_error::<T10>(cx, e));
                    return Err(e);
                },
            };
            let ghost (before11, cx11) = (v11, ctx);
            let r11 = T11::try_parse_self(&mut v11, &mut ctx);
            let m11 = match r11 {
                Ok(m) => m,
                Err(e) => {
                    assert(T11::takes(before11, cx11, Err::<bool, CliError>(e), v11, ctx));
                    assert(opt_error::<T11>(cx, e));
                    return Err(e);
                },
            };
            if !(m1 || m2 || m3 || m4 || m5 || m6 || m7 || m8 || m9 || m10 || m11) {
                break;
            }
        }
        let ghost tail_cx = ctx;
        let rt = F::try_parse_self(ctx);
        let tail = match rt {
            Ok(t) => t,
            Err(e) => {
                assert(F::tail_takes(tail_cx, Err::<F, CliError>(e)));
                assert(tail_error::<F>(cx, e));
                return Err(e);
            },
        };
        let ghost fin1 = v1;
        let fr1 = T1::finalize(v1);
        let x1 = match fr1 {
            Ok(x) => x,
            Err(e) => {
                assert(T1::finalizes(fin1, Err::<T1, CliError>(e)));
                assert(opt_error::<T1>(cx, e));
                return Err(e);
            },
        };
        assert(T1::finalizes(fin1, Ok::<T1, CliError>(x1)));
        let ghost fin2 = v2;
        let fr2 = T2::finalize(v2);
        let x2 = match fr2 {
            Ok(x) => x,
            Err(e) => {
                assert(T2::finalizes(fin2, Err::<T2, CliError>(e)));
                assert(opt_error::<T2>(cx, e));
                return Err(e);
            },
        };
        assert(T2::finalizes(fin2, Ok::<T2, CliError>(x2)));
        let ghost fin3 = v3;
        let fr3 = T3::finalize(v3);
        let x3 = match fr3 {
            Ok(x) => x,
            Err(e) => {
                assert(T3::finalizes(fin3, Err::<T3, CliError>(e)));
                assert(opt_error::<T3>(cx, e));
                return Err(e);
            },
        };
        assert(T3::finalizes(fin3, Ok::<T3, CliError>(x3)));
        let ghost fin4 = v4;
        let fr4 = T4::finalize(v4);
        let x4 = match fr4 {
            Ok(x) => x,
            Err(e) => {
                assert(T4::finalizes(fin4, Err::<T4, CliError>(e)));
                assert(opt_error::<T4>(cx, e));
                return Err(e);
            },
        };
        assert(T4::finalizes(fin4, Ok::<T4, CliError>(x4)));
        let ghost fin5 = v5;
        let fr5 = T5::finalize(v5);
        let x5 = match fr5 {
            Ok(x) => x,
            Err(e) => {
                assert(T5::finalizes(fin5, Err::<T5, CliError>(e)));
                assert(opt_error::<T5>(cx, e));
                return Err(e);
            },
        };
        assert(T5::finalizes(fin5, Ok::<T5, CliError>(x5)));
        let ghost fin6 = v6;
        let fr6 = T6::finalize(v6);
        let x6 = match fr6 {
            Ok(x) => x,
            Err(e) => {
                assert(T6::finalizes(fin6, Err::<T6, CliError>(e)));
                assert(opt_error::<T6>(cx, e));
                return Err(e);
            },
        };
        assert(T6::finalizes(fin6, Ok::<T6, CliError>(x6)));
        let ghost fin7 = v7;
        let fr7 = T7::finalize(v7);
        let x7 = match fr7 {
            Ok(x) => x,
            Err(e) => {
                assert(T7::finalizes(fin7, Err::<T7, CliError>(e)));
                assert(opt_error::<T7>(cx, e));
                return Err(e);
            },
        };
        assert(T7::finalizes(fin7, Ok::<T7, CliError>(x7)));
        let ghost fin8 = v8;
        let fr8 = T8::finalize(v8);
        let x8 = match fr8 {
            Ok(x) => x,
            Err(e) => {
                assert(T8::finalizes(fin8, Err::<T8, CliError>(e)));
                assert(opt_error::<T8>(cx, e));
                return Err(e);
            },
        };
        assert(T8::finalizes(fin8, Ok::<T8, CliError>(x8)));
        let ghost fin9 = v9;
        let fr9 = T9::finalize(v9);
        let x9 = match fr9 {
            Ok(x) => x,
            Err(e) => {
                assert(T9::finalizes(fin9, Err::<T9, CliError>(e)));
                assert(opt_error::<T9>(cx, e));
                return Err(e);
            },
        };
        assert(T9::finalizes(fin9, Ok::<T9, CliError>(x9)));
        let ghost fin10 = v10;
        let fr10 = T10::finalize(v10);
        let x10 = match fr10 {
            Ok(x) => x,
            Err(e) => {
                assert(T10::finalizes(fin10, Err::<T10, CliError>(e)));
                assert(opt_error::<T10>(cx, e));
                return Err(e);
            },
        };
        assert(T10::finalizes(fin10, Ok::<T10, CliError>(x10)));
        let ghost fin11 = v11;
        let fr11 = T11::finalize(v11);
        let x11 = match fr11 {
            Ok(x) => x,
            Err(e) => {
                assert(T11::finalizes(fin11, Err::<T11, CliError>(e)));
                assert(opt_error::<T11>(cx, e));
                return Err(e);
            },
        };
        assert(T11::finalizes(fin11, Ok::<T11, CliError>(x11)));
        assert(F::tail_takes(tail_cx, Ok::<F, CliError>(tail)));
        let ghost gt = tail;
        let ghost gx1 = x1;
        let ghost gx2 = x2;
        let ghost gx3 = x3;
        let ghost gx4 = x4;
        let ghost gx5 = x5;
        let ghost gx6 = x6;
        let ghost gx7 = x7;
        let ghost gx8 = x8;
        let ghost gx9 = x9;
        let ghost gx10 = x10;
        let ghost gx11 = x11;
        callback(x1, x2, x3, x4, x5, x6, x7, x8, x9, x10, x11, tail);
        assert(call_ensures(callback, (gx1, gx2, gx3, gx4, gx5, gx6, gx7, gx8, gx9, gx10, gx11, gt), ()));
        Ok(ParseOutcome::Done)
    }
}

impl<C: FnOnce(T1, T2, T3, T4, T5, T6, T7, T8, T9, T10, T11, T12, F), T1: Opt, T2: Opt, T3: Opt, T4: Opt, T5: Opt, T6: Opt, T7: Opt, T8: Opt, T9: Opt, T10: Opt, T11: Opt, T12: Opt, F: FinalOpt> ParsingCallback<(T1, T2, T3, T4, T5, T6, T7, T8, T9, T10, T11, T12, F)> for C {
    open spec fn accepts_all(&self) -> bool {
        forall|a: T1, b: T2, c: T3, d: T4, e: T5, g: T6, h: T7, i: T8, j: T9, k: T10, l: T11, m: T12, t: F| call_requires(*self, (a, b, c, d, e, g, h, i, j, k, l, m, t))
    }

    /// Done: the callback was called with the final values of the options
    /// and the value the remaining arguments gave. Help: the documentation
    /// of the options and of the help flag. An error: one that taking an
    /// option, taking the remaining arguments or a final value gave.
    open spec fn outcome(&self, cx: ParsingContext, add_help: bool, r: Result<ParseOutcome, CliError>) -> bool {
        match r {
            Ok(ParseOutcome::Done) => exists|v1: Option<T1>, x1: T1, v2: Option<T2>, x2: T2, v3: Option<T3>, x3: T3, v4: Option<T4>, x4: T4, v5: Option<T5>, x5: T5, v6: Option<T6>, x6: T6, v7: Option<T7>, x7: T7, v8: Option<T8>, x8: T8, v9: Option<T9>, x9: T9, v10: Option<T10>, x10: T10, v11: Option<T11>, x11: T11, v12: Option<T12>, x12: T12, c: ParsingContext, t: F|
                #![trigger T1::finalizes(v1, Ok::<T1, CliError>(x1)), T2::finalizes(v2, Ok::<T2, CliError>(x2)), T3::finalizes(v3, Ok::<T3, CliError>(x3)), T4::finalizes(v4, Ok::<T4, CliError>(x4)), T5::finalizes(v5, Ok::<T5, CliError>(x5)), T6::finalizes(v6, Ok::<T6, CliError>(x6)), T7::finalizes(v7, Ok::<T7, CliError>(x7)), T8::finalizes(v8, Ok::<T8, CliError>(x8)), T9::finalizes(v9, Ok::<T9, CliError>(x9)), T10::finalizes(v10, Ok::<T10, CliError>(x10)), T11::finalizes(v11, Ok::<T11, CliError>(x11)), T12::finalizes(v12, Ok::<T12, CliError>(x12)), F::tail_takes(c, Ok::<F, CliError>(t))]
                T1::finalizes(v1, Ok::<T1, CliError>(x1)) &&
                T2::finalizes(v2, Ok::<T2, CliError>(x2)) &&
                T3::finalizes(v3, Ok::<T3, CliError>(x3)) &&
                T4::finalizes(v4, Ok::<T4, CliError>(x4)) &&
                T5::finalizes(v5, Ok::<T5, CliError>(x5)) &&
                T6::finalizes(v6, Ok::<T6, CliError>(x6)) &&
                T7::finalizes(v7, Ok::<T7, CliError>(x7)) &&
                T8::finalizes(v8, Ok::<T8, CliError>(x8)) &&
                T9::finalizes(v9, Ok::<T9, CliError>(x9)) &&
                T10::finalizes(v10, Ok::<T10, CliError>(x10)) &&
                T11::finalizes(v11, Ok::<T11, CliError>(x11)) &&
                T12::finalizes(v12, Ok::<T12, CliError>(x12)) &&
                F::tail_takes(c, Ok::<F, CliError>(t)) && after_options(cx, c) && call_ensures(*self, (x1, x2, x3, x4, x5, x6, x7, x8, x9, x10, x11, x12, t), ()),
            Ok(ParseOutcome::Help(d)) => add_help && exists|s1: DocumentationStore, s2: DocumentationStore, s3: DocumentationStore, s4: DocumentationStore, s5: DocumentationStore, s6: DocumentationStore, s7: DocumentationStore, s8: DocumentationStore, s9: DocumentationStore, s10: DocumentationStore, s11: DocumentationStore, s12: DocumentationStore|
                #![trigger T1::documents(cx.documentation, s1), T2::documents(s1, s2), T3::documents(s2, s3), T4::documents(s3, s4), T5::documents(s4, s5), T6::documents(s5, s6), T7::documents(s6, s7), T8::documents(s7, s8), T9::documents(s8, s9), T10::documents(s9, s10), T11::documents(s10, s11), T12::documents(s11, s12)]
                T1::documents(cx.documentation, s1) && T2::documents(s1, s2) && T3::documents(s2, s3) && T4::documents(s3, s4) && T5::documents(s4, s5) && T6::documents(s5, s6) && T7::documents(s6, s7) && T8::documents(s7, s8) && T9::documents(s8, s9) && T10::documents(s9, s10) && T11::documents(s10, s11) && T12::documents(s11, s12) && help_listed(s12, d),
            Err(e) => opt_error::<T1>(cx, e) || opt_error::<T2>(cx, e) || opt_error::<T3>(cx, e) || opt_error::<T4>(cx, e) || opt_error::<T5>(cx, e) || opt_error::<T6>(cx, e) || opt_error::<T7>(cx, e) || opt_error::<T8>(cx, e) || opt_error::<T9>(cx, e) || opt_error::<T10>(cx, e) || opt_error::<T11>(cx, e) || opt_error::<T12>(cx, e) || tail_error::<F>(cx, e),
        }
    }

    fn process(cx: ParsingContext, callback: Self, add_help: bool) -> (r: Result<ParseOutcome, CliError>) {
        let mut ctx = cx;
        T1::add_documentation(&mut ctx.documentation);
        let ghost s1 = ctx.documentation;
        T2::add_documentation(&mut ctx.documentation);
        let ghost s2 = ctx.documentation;
        T3::add_documentation(&mut ctx.documentation);
        let ghost s3 = ctx.documentation;
        T4::add_documentation(&mut ctx.documentation);
        let ghost s4 = ctx.documentation;
        T5::add_documentation(&mut ctx.documentation);
        let ghost s5 = ctx.documentation;
        T6::add_documentation(&mut ctx.documentation);
        let ghost s6 = ctx.documentation;
        T7::add_documentation(&mut ctx.documentation);
        let ghost s7 = ctx.documentation;
        T8::add_documentation(&mut ctx.documentation);
        let ghost s8 = ctx.documentation;
        T9::add_documentation(&mut ctx.documentation);
        let ghost s9 = ctx.documentation;
        T10::add_documentation(&mut ctx.documentation);
        let ghost s10 = ctx.documentation;
        T11::add_documentation(&mut ctx.documentation);
        let ghost s11 = ctx.documentation;
        T12::add_documentation(&mut ctx.documentation);
        let ghost s12 = ctx.documentation;
        document_help(&mut ctx, add_help);
        let ghost start = ctx;
        assert(cx.next_arg() == start.next_arg());
        proof {
            if add_help {
                assert(help_listed(s12, start.documentation));
                assert(callback.outcome(cx, add_help, Ok(ParseOutcome::Help(start.documentation))));
            }
        }
        let ghost wants_help = add_help && next_names(cx, help_names());
        let mut v1: Option<T1> = None;
        let mut v2: Option<T2> = None;
        let mut v3: Option<T3> = None;
        let mut v4: Option<T4> = None;
        let mut v5: Option<T5> = None;
        let mut v6: Option<T6> = None;
        let mut v7: Option<T7> = None;
        let mut v8: Option<T8> = None;
        let mut v9: Option<T9> = None;
        let mut v10: Option<T10> = None;
        let mut v11: Option<T11> = None;
        let mut v12: Option<T12> = None;
        loop
            invariant
                ctx.cursor <= ctx.args@.len(),
                ctx.documentation.wf(),
                ctx.documentation == start.documentation,
                ctx.args@ == start.args@,
                start.args@ == cx.args@,
                start.cursor == cx.cursor,
                ctx.cursor >= start.cursor,
                wants_help == (add_help && next_names(start, help_names())),
                wants_help == (add_help && next_names(cx, help_names())),
                wants_help ==> ctx.cursor == start.cursor,
                ctx.cursor == start.cursor ==> v1.is_none() && v2.is_none() && v3.is_none() && v4.is_none() && v5.is_none() && v6.is_none() && v7.is_none() && v8.is_none() && v9.is_none() && v10.is_none() && v11.is_none() && v12.is_none(),
                add_help ==> callback.outcome(cx, add_help, Ok(ParseOutcome::Help(start.documentation))),
            ensures
                !wants_help,
            decreases ctx.args@.len() - ctx.cursor,
        {
            let ghost at_start = ctx;
            proof {
                if wants_help {
                    assert(at_start.next_arg() == start.next_arg());
                }
            }
            if help_asked(&mut ctx, add_help) {
                return Ok(ParseOutcome::Help(ctx.documentation));
            }
            assert(!wants_help);
            let ghost (before1, cx1) = (v1, ctx);
            let r1 = T1::try_parse_self(&mut v1, &mut ctx);
            let m1 = match r1 {
                Ok(m) => m,
                Err(e) => {
                    assert(T1::takes(before1, cx1, Err::<bool, CliError>(e), v1, ctx));
                    assert(opt_error::<T1>(cx, e));
                    return Err(e);
                },
            };
            let ghost (before2, cx2) = (v2, ctx);
            let r2 = T2::try_parse_self(&mut v2, &mut ctx);
            let m2 = match r2 {
                Ok(m) => m,
                Err(e) => {
                    assert(T2::takes(before2, cx2, Err::<bool, CliError>(e), v2, ctx));
                    assert(opt_error::<T2>(cx, e));
                    return Err(e);
                },
            };
            let ghost (before3, cx3) = (v3, ctx);
            let r3 = T3::try_parse_self(&mut v3, &mut ctx);
            let m3 = match r3 {
                Ok(m) => m,
                Err(e) => {
                    assert(T3::takes(before3, cx3, Err::<bool, CliError>(e), v3, ctx));
                    assert(opt_error::<T3>(cx, e));
                    return Err(e);
                },
            };
            let ghost (before4, cx4) = (v4, ctx);
            let r4 = T4::try_parse_self(&mut v4, &mut ctx);
            let m4 = match r4 {
                Ok(m) => m,
                Err(e) => {
                    assert(T4::takes(before4, cx4, Err::<bool, CliError>(e), v4, ctx));
                    assert(opt_error::<T4>(cx, e));
                    return Err(e);
                },
            };
            let ghost (before5, cx5) = (v5, ctx);
            let r5 = T5::try_parse_self(&mut v5, &mut ctx);
            let m5 = match r5 {
                Ok(m) => m,
                Err(e) => {
                    assert(T5::takes(before5, cx5, Err::<bool, CliError>(e), v5, ctx));
                    assert(opt_error::<T5>(cx, e));
                    return Err(e);
                },
            };
            let ghost (before6, cx6) = (v6, ctx);
            let r6 = T6::try_parse_self(&mut v6, &mut ctx);
            let m6 = match r6 {
                Ok(m) => m,
                Err(e) => {
                    assert(T6::takes(before6, cx6, Err::<bool, CliError>(e), v6, ctx));
                    assert(opt_error::<T6>(cx, e));
                    return Err(e);
                },
            };
            let ghost (before7, cx7) = (v7, ctx);
            let r7 = T7::try_parse_self(&mut v7, &mut ctx);
            let m7 = match r7 {
                Ok(m) => m,
                Err(e) => {
                    assert(T7::takes(before7, cx7, Err::<bool, CliError>(e), v7, ctx));
                    assert(opt_error::<T7>(cx, e));
                    return Err(e);
                },
            };
            let ghost (before8, cx8) = (v8, ctx);
            let r8 = T8::try_parse_self(&mut v8, &mut ctx);
            let m8 = match r8 {
                Ok(m) => m,
                Err(e) => {
                    assert(T8::takes(before8, cx8, Err::<bool, CliError>(e), v8, ctx));
                    assert(opt_error::<T8>(cx, e));
                    return Err(e);
                },
            };
            let ghost (before9, cx9) = (v9, ctx);
            let r9 = T9::try_parse_self(&mut v9, &mut ctx);
            let m9 = match r9 {
                Ok(m) => m,
                Err(e) => {
                    assert(T9::takes(before9, cx9, Err::<bool, CliError>(e), v9, ctx));
                    assert(opt_error::<T9>(cx, e));
                    return Err(e);
                },
            };
            let ghost (before10, cx10) = (v10, ctx);
            let r10 = T10::try_parse_self(&mut v10, &mut ctx);
            let m10 = match r10 {
                Ok(m) => m,
                Err(e) => {
                    assert(T10::takes(before10, cx10, Err::<bool, CliError>(e), v10, ctx));
                    assert(opt_error::<T10>(cx, e));
                    return Err(e);
                },
            };
            let ghost (before11, cx11) = (v11, ctx);
            let r11 = T11::try_parse_self(&mut v11, &mut ctx);
            let m11 = match r11 {
                Ok(m) => m,
                Err(e) => {
                    assert(T11::takes(before11, cx11, Err::<bool, CliError>(e), v11, ctx));
                    assert(opt_error::<T11>(cx, e));
                    return Err(e);
                },
            };
            let ghost (before12, cx12) = (v12, ctx);
            let r12 = T12::try_parse_self(&mut v12, &mut ctx);
            let m12 = match r12 {
                Ok(m) => m,
                Err(e) => {
                    assert(T12::takes(before12, cx12, Err::<bool, CliError>(e), v12, ctx));
                    assert(opt_error::<T12>(cx, e));
                    return Err(e);
                },
            };
            if !(m1 || m2 || m3 || m4 || m5 || m6 || m7 || m8 || m9 || m10 || m11 || m12) {
                break;
            }
        }
        let ghost tail_cx = ctx;
        let rt = F::try_parse_self(ctx);
        let tail = match rt {
            Ok(t) => t,
            Err(e) => {
                assert(F::tail_takes(tail_cx, Err::<F, CliError>(e)));
                assert(tail_error::<F>(cx, e));
                return Err(e);
            },
        };
        let ghost fin1 = v1;
        let fr1 = T1::finalize(v1);
        let x1 = match fr1 {
            Ok(x) => x,
            Err(e) => {
                assert(T1::finalizes(fin1, Err::<T1, CliError>(e)));
                assert(opt_error::<T1>(cx, e));
                return Err(e);
            },
        };
        assert(T1::finalizes(fin1, Ok::<T1, CliError>(x1)));
        let ghost fin2 = v2;
        let fr2 = T2::finalize(v2);
        let x2 = match fr2 {
            Ok(x) => x,
            Err(e) => {
                assert(T2::finalizes(fin2, Err::<T2, CliError>(e)));
                assert(opt_error::<T2>(cx, e));
                return Err(e);
            },
        };
        assert(T2::finalizes(fin2, Ok::<T2, CliError>(x2)));
        let ghost fin3 = v3;
        let fr3 = T3::finalize(v3);
        let x3 = match fr3 {
            Ok(x) => x,
            Err(e) => {
                assert(T3::finalizes(fin3, Err::<T3, CliError>(e)));
                assert(opt_error::<T3>(cx, e));
                return Err(e);
            },
        };
        assert(T3::finalizes(fin3, Ok::<T3, CliError>(x3)));
        let ghost fin4 = v4;
        let fr4 = T4::finalize(v4);
        let x4 = match fr4 {
            Ok(x) => x,
            Err(e) => {
                assert(T4::finalizes(fin4, Err::<T4, CliError>(e)));
                assert(opt_error::<T4>(cx, e));
                return Err(e);
            },
        };
        assert(T4::finalizes(fin4, Ok::<T4, CliError>(x4)));
        let ghost fin5 = v5;
        let fr5 = T5::finalize(v5);
        let x5 = match fr5 {
            Ok(x) => x,
            Err(e) => {
                assert(T5::finalizes(fin5, Err::<T5, CliError>(e)));
                assert(opt_error::<T5>(cx, e));
                return Err(e);
            },
        };
        assert(T5::finalizes(fin5, Ok::<T5, CliError>(x5)));
        let ghost fin6 = v6;
        let fr6 = T6::finalize(v6);
        let x6 = match fr6 {
            Ok(x) => x,
            Err(e) => {
                assert(T6::finalizes(fin6, Err::<T6, CliError>(e)));
                assert(opt_error::<T6>(cx, e));
                return Err(e);
            },
        };
        assert(T6::finalizes(fin6, Ok::<T6, CliError>(x6)));
        let ghost fin7 = v7;
        let fr7 = T7::finalize(v7);
        let x7 = match fr7 {
            Ok(x) => x,
            Err(e) => {
                assert(T7::finalizes(fin7, Err::<T7, CliError>(e)));
                assert(opt_error::<T7>(cx, e));
                return Err(e);
            },
        };
        assert(T7::finalizes(fin7, Ok::<T7, CliError>(x7)));
        let ghost fin8 = v8;
        let fr8 = T8::finalize(v8);
        let x8 = match fr8 {
            Ok(x) => x,
            Err(e) => {
                assert(T8::finalizes(fin8, Err::<T8, CliError>(e)));
                assert(opt_error::<T8>(cx, e));
                return Err(e);
            },
        };
        assert(T8::finalizes(fin8, Ok::<T8, CliError>(x8)));
        let ghost fin9 = v9;
        let fr9 = T9::finalize(v9);
        let x9 = match fr9 {
            Ok(x) => x,
            Err(e) => {
                assert(T9::finalizes(fin9, Err::<T9, CliError>(e)));
                assert(opt_error::<T9>(cx, e));
                return Err(e);
            },
        };
        assert(T9::finalizes(fin9, Ok::<T9, CliError>(x9)));
        let ghost fin10 = v10;
        let fr10 = T10::finalize(v10);
        let x10 = match fr10 {
            Ok(x) => x,
            Err(e) => {
                assert(T10::finalizes(fin10, Err::<T10, CliError>(e)));
                assert(opt_error::<T10>(cx, e));
                return Err(e);
            },
        };
        assert(T10::finalizes(fin10, Ok::<T10, CliError>(x10)));
        let ghost fin11 = v11;
        let fr11 = T11::finalize(v11);
        let x11 = match fr11 {
            Ok(x) => x,
            Err(e) => {
                assert(T11::finalizes(fin11, Err::<T11, CliError>(e)));
                assert(opt_error::<T11>(cx, e));
                return Err(e);
            },
        };
        assert(T11::finalizes(fin11, Ok::<T11, CliError>(x11)));
        let ghost fin12 = v12;
        let fr12 = T12::finalize(v12);
        let x12 = match fr12 {
            Ok(x) => x,
            Err(e) => {
                assert(T12::finalizes(fin12, Err::<T12, CliError>(e)));
                assert(opt_error::<T12>(cx, e));
                return Err(e);
            },
        };
        assert(T12::finalizes(fin12, Ok::<T12, CliError>(x12)));
        assert(F::tail_takes(tail_cx, Ok::<F, CliError>(tail)));
        let ghost gt = tail;
        let ghost gx1 = x1;
        let ghost gx2 = x2;
        let ghost gx3 = x3;
        let ghost gx4 = x4;
        let ghost gx5 = x5;
        let ghost gx6 = x6;
        let ghost gx7 = x7;
        let ghost gx8 = x8;
        let ghost gx9 = x9;
        let ghost gx10 = x10;
        let ghost gx11 = x11;
        let ghost gx12 = x12;
        callback(x1, x2, x3, x4, x5, x6, x7, x8, x9, x10, x11, x12, tail);
        assert(call_ensures(callback, (gx1, gx2, gx3, gx4, gx5, gx6, gx7, gx8, gx9, gx10, gx11, gx12, gt), ()));
        Ok(ParseOutcome::Done)
    }
}

impl<C: FnOnce(T1, T2, T3, T4, T5, T6, T7, T8, T9, T10, T11, T12, T13, F), T1: Opt, T2: Opt, T3: Opt, T4: Opt, T5: Opt, T6: Opt, T7: Opt, T8: Opt, T9: Opt, T10: Opt, T11: Opt, T12: Opt, T13: Opt, F: FinalOpt> ParsingCallback<(T1, T2, T3, T4, T5, T6, T7, T8, T9, T10, T11, T12, T13, F)> for C {
    open spec fn accepts_all(&self) -> bool {
        forall|a: T1, b: T2, c: T3, d: T4, e: T5, g: T6, h: T7, i: T8, j: T9, k: T10, l: T11, m: T12, n: T13, t: F| call_requires(*self, (a, b, c, d, e, g, h, i, j, k, l, m, n, t))
    }

    /// Done: the callback was called with the final values of the options
    /// and the value the remaining arguments gave. Help: the documentation
    /// of the options and of the help flag. An error: one that taking an
    /// option, taking the remaining arguments or a final value gave.
    open spec fn outcome(&self, cx: ParsingContext, add_help: bool, r: Result<ParseOutcome, CliError>) -> bool {
        match r {
            Ok(ParseOutcome::Done) => exists|v1: Option<T1>, x1: T1, v2: Option<T2>, x2: T2, v3: Option<T3>, x3: T3, v4: Option<T4>, x4: T4, v5: Option<T5>, x5: T5, v6: Option<T6>, x6: T6, v7: Option<T7>, x7: T7, v8: Option<T8>, x8: T8, v9: Option<T9>, x9: T9, v10: Option<T10>, x10: T10, v11: Option<T11>, x11: T11, v12: Option<T12>, x12: T12, v13: Option<T13>, x13: T13, c: ParsingContext, t: F|
                #![trigger T1::finalizes(v1, Ok::<T1, CliError>(x1)), T2::finalizes(v2, Ok::<T2, CliError>(x2)), T3::finalizes(v3, Ok::<T3, CliError>(x3)), T4::finalizes(v4, Ok::<T4, CliError>(x4)), T5::finalizes(v5, Ok::<T5, CliError>(x5)), T6::finalizes(v6, Ok::<T6, CliError>(x6)), T7::finalizes(v7, Ok::<T7, CliError>(x7)), T8::finalizes(v8, Ok::<T8, CliError>(x8)), T9::finalizes(v9, Ok::<T9, CliError>(x9)), T10::finalizes(v10, Ok::<T10, CliError>(x10)), T11::finalizes(v11, Ok::<T11, CliError>(x11)), T12::finalizes(v12, Ok::<T12, CliError>(x12)), T13::finalizes(v13, Ok::<T13, CliError>(x13)), F::tail_takes(c, Ok::<F, CliError>(t))]
                T1::finalizes(v1, Ok::<T1, CliError>(x1)) &&
                T2::finalizes(v2, Ok::<T2, CliError>(x2)) &&
                T3::finalizes(v3, Ok::<T3, CliError>(x3)) &&
                T4::finalizes(v4, Ok::<T4, CliError>(x4)) &&
                T5::finalizes(v5, Ok::<T5, CliError>(x5)) &&
                T6::finalizes(v6, Ok::<T6, CliError>(x6)) &&
                T7::finalizes(v7, Ok::<T7, CliError>(x7)) &&
                T8::finalizes(v8, Ok::<T8, CliError>(x8)) &&
                T9::finalizes(v9, Ok::<T9, CliError>(x9)) &&
                T10::finalizes(v10, Ok::<T10, CliError>(x10)) &&
                T11::finalizes(v11, Ok::<T11, CliError>(x11)) &&
                T12::finalizes(v12, Ok::<T12, CliError>(x12)) &&
                T13::finalizes(v13, Ok::<T13, CliError>(x13)) &&
                F::tail_takes(c, Ok::<F, CliError>(t)) && after_options(cx, c) && call_ensures(*self, (x1, x2, x3, x4, x5, x6, x7, x8, x9, x10, x11, x12, x13, t), ()),
            Ok(ParseOutcome::Help(d)) => add_help && exists|s1: DocumentationStore, s2: DocumentationStore, s3: DocumentationStore, s4: DocumentationStore, s5: DocumentationStore, s6: DocumentationStore, s7: DocumentationStore, s8: DocumentationStore, s9: DocumentationStore, s10: DocumentationStore, s11: DocumentationStore, s12: DocumentationStore, s13: DocumentationStore|
                #![trigger T1::documents(cx.documentation, s1), T2::documents(s1, s2), T3::documents(s2, s3), T4::documents(s3, s4), T5::documents(s4, s5), T6::documents(s5, s6), T7::documents(s6, s7), T8::documents(s7, s8), T9::documents(s8, s9), T10::documents(s9, s10), T11::documents(s10, s11), T12::documents(s11, s12), T13::documents(s12, s13)]
                T1::documents(cx.documentation, s1) && T2::documents(s1, s2) && T3::documents(s2, s3) && T4::documents(s3, s4) && T5::documents(s4, s5) && T6::documents(s5, s6) && T7::documents(s6, s7) && T8::documents(s7, s8) && T9::documents(s8, s9) && T10::documents(s9, s10) && T11::documents(s10, s11) && T12::documents(s11, s12) && T13::documents(s12, s13) && help_listed(s13, d),
            Err(e) => opt_error::<T1>(cx, e) || opt_error::<T2>(cx, e) || opt_error::<T3>(cx, e) || opt_error::<T4>(cx, e) || opt_error::<T5>(cx, e) || opt_error::<T6>(cx, e) || opt_error::<T7>(cx, e) || opt_error::<T8>(cx, e) || opt_error::<T9>(cx, e) || opt_error::<T10>(cx, e) || opt_error::<T11>(cx, e) || opt_error::<T12>(cx, e) || opt_error::<T13>(cx, e) || tail_error::<F>(cx, e),
        }
    }

    fn process(cx: ParsingContext, callback: Self, add_help: bool) -> (r: Result<ParseOutcome, CliError>) {
        let mut ctx = cx;
        T1::add_documentation(&mut ctx.documentation);
        let ghost s1 = ctx.documentation;
        T2::add_documentation(&mut ctx.documentation);
        let ghost s2 = ctx.documentation;
        T3::add_documentation(&mut ctx.documentation);
        let ghost s3 = ctx.documentation;
        T4::add_documentation(&mut ctx.documentation);
        let ghost s4 = ctx.documentation;
        T5::add_documentation(&mut ctx.documentation);
        let ghost s5 = ctx.documentation;
        T6::add_documentation(&mut ctx.documentation);
        let ghost s6 = ctx.documentation;
        T7::add_documentation(&mut ctx.documentation);
        let ghost s7 = ctx.documentation;
        T8::add_documentation(&mut ctx.documentation);
        let ghost s8 = ctx.documentation;
        T9::add_documentation(&mut ctx.documentation);
        let ghost s9 = ctx.documentation;
        T10::add_documentation(&mut ctx.documentation);
        let ghost s10 = ctx.documentation;
        T11::add_documentation(&mut ctx.documentation);
        let ghost s11 = ctx.documentation;
        T12::add_documentation(&mut ctx.documentation);
        let ghost s12 = ctx.documentation;
        T13::add_documentation(&mut ctx.documentation);
        let ghost s13 = ctx.documentation;
        document_help(&mut ctx, add_help);
        let ghost start = ctx;
        assert(cx.next_arg() == start.next_arg());
        proof {
            if add_help {
                assert(help_listed(s13, start.documentation));
                assert(callback.outcome(cx, add_help, Ok(ParseOutcome::Help(start.documentation))));
            }
        }
        let ghost wants_help = add_help && next_names(cx, help_names());
        let mut v1: Option<T1> = None;
        let mut v2: Option<T2> = None;
        let mut v3: Option<T3> = None;
        let mut v4: Option<T4> = None;
        let mut v5: Option<T5> = None;
        let mut v6: Option<T6> = None;
        let mut v7: Option<T7> = None;
        let mut v8: Option<T8> = None;
        let mut v9: Option<T9> = None;
        let mut v10: Option<T10> = None;
        let mut v11: Option<T11> = None;
        let mut v12: Option<T12> = None;
        let mut v13: Option<T13> = None;
        loop
            invariant
                ctx.cursor <= ctx.args@.len(),
                ctx.documentation.wf(),
                ctx.documentation == start.documentation,
                ctx.args@ == start.args@,
                start.args@ == cx.args@,
                start.cursor == cx.cursor,
                ctx.cursor >= start.cursor,
                wants_help == (add_help && next_names(start, help_names())),
                wants_help == (add_help && next_names(cx, help_names())),
                wants_help ==> ctx.cursor == start.cursor,
                ctx.cursor == start.cursor ==> v1.is_none() && v2.is_none() && v3.is_none() && v4.is_none() && v5.is_none() && v6.is_none() && v7.is_none() && v8.is_none() && v9.is_none() && v10.is_none() && v11.is_none() && v12.is_none() && v13.is_none(),
                add_help ==> callback.outcome(cx, add_help, Ok(ParseOutcome::Help(start.documentation))),
            ensures
                !wants_help,
            decreases ctx.args@.len() - ctx.cursor,
        {
            let ghost at_start = ctx;
            proof {
                if wants_help {
                    assert(at_start.next_arg() == start.next_arg());
                }
            }
            if help_asked(&mut ctx, add_help) {
                return Ok(ParseOutcome::Help(ctx.documentation));
            }
            assert(!wants_help);
            let ghost (before1, cx1) = (v1, ctx);
            let r1 = T1::try_parse_self(&mut v1, &mut ctx);
            let m1 = match r1 {
                Ok(m) => m,
                Err(e) => {
                    assert(T1::takes(before1, cx1, Err::<bool, CliError>(e), v1, ctx));
                    assert(opt_error::<T1>(cx, e));
                    return Err(e);
                },
            };
            let ghost (before2, cx2) = (v2, ctx);
            let r2 = T2::try_parse_self(&mut v2, &mut ctx);
            let m2 = match r2 {
                Ok(m) => m,
                Err(e) => {
                    assert(T2::takes(before2, cx2, Err::<bool, CliError>(e), v2, ctx));
                    assert(opt_error::<T2>(cx, e));
                    return Err(e);
                },
            };
            let ghost (before3, cx3) = (v3, ctx);
            let r3 = T3::try_parse_self(&mut v3, &mut ctx);
            let m3 = match r3 {
                Ok(m) => m,
                Err(e) => {
                    assert(T3::takes(before3, cx3, Err::<bool, CliError>(e), v3, ctx));
                    assert(opt_error::<T3>(cx, e));
                    return Err(e);
                },
            };
            let ghost (before4, cx4) = (v4, ctx);
            let r4 = T4::try_parse_self(&mut v4, &mut ctx);
            let m4 = match r4 {
                Ok(m) => m,
                Err(e) => {
                    assert(T4::takes(before4, cx4, Err::<bool, CliError>(e), v4, ctx));
                    assert(opt_error::<T4>(cx, e));
                    return Err(e);
                },
            };
            let ghost (before5, cx5) = (v5, ctx);
            let r5 = T5::try_parse_self(&mut v5, &mut ctx);
            let m5 = match r5 {
                Ok(m) => m,
                Err(e) => {
                    assert(T5::takes(before5, cx5, Err::<bool, CliError>(e), v5, ctx));
                    assert(opt_error::<T5>(cx, e));
                    return Err(e);
                },
            };
            let ghost (before6, cx6) = (v6, ctx);
            let r6 = T6::try_parse_self(&mut v6, &mut ctx);
            let m6 = match r6 {
                Ok(m) => m,
                Err(e) => {
                    assert(T6::takes(before6, cx6, Err::<bool, CliError>(e), v6, ctx));
                    assert(opt_error::<T6>(cx, e));
                    return Err(e);
                },
            };
            let ghost (before7, cx7) = (v7, ctx);
            let r7 = T7::try_parse_self(&mut v7, &mut ctx);
            let m7 = match r7 {
                Ok(m) => m,
                Err(e) => {
                    assert(T7::takes(before7, cx7, Err::<bool, CliError>(e), v7, ctx));
                    assert(opt_error::<T7>(cx, e));
                    return Err(e);
                },
            };
            let ghost (before8, cx8) = (v8, ctx);
            let r8 = T8::try_parse_self(&mut v8, &mut ctx);
            let m8 = match r8 {
                Ok(m) => m,
                Err(e) => {
                    assert(T8::takes(before8, cx8, Err::<bool, CliError>(e), v8, ctx));
                    assert(opt_error::<T8>(cx, e));
                    return Err(e);
                },
            };
            let ghost (before9, cx9) = (v9, ctx);
            let r9 = T9::try_parse_self(&mut v9, &mut ctx);
            let m9 = match r9 {
                Ok(m) => m,
                Err(e) => {
                    assert(T9::takes(before9, cx9, Err::<bool, CliError>(e), v9, ctx));
                    assert(opt_error::<T9>(cx, e));
                    return Err(e);
                },
            };
            let ghost (before10, cx10) = (v10, ctx);
            let r10 = T10::try_parse_self(&mut v10, &mut ctx);
            let m10 = match r10 {
                Ok(m) => m,
                Err(e) => {
                    assert(T10::takes(before10, cx10, Err::<bool, CliError>(e), v10, ctx));
                    assert(opt_error::<T10>(cx, e));
                    return Err(e);
                },
            };
            let ghost (before11, cx11) = (v11, ctx);
            let r11 = T11::try_parse_self(&mut v11, &mut ctx);
            let m11 = match r11 {
                Ok(m) => m,
                Err(e) => {
                    assert(T11::takes(before11, cx11, Err::<bool, CliError>(e), v11, ctx));
                    assert(opt_error::<T11>(cx, e));
                    return Err(e);
                },
            };
            let ghost (before12, cx12) = (v12, ctx);
            let r12 = T12::try_parse_self(&mut v12, &mut ctx);
            let m12 = match r12 {
                Ok(m) => m,
                Err(e) => {
                    assert(T12::takes(before12, cx12, Err::<bool, CliError>(e), v12, ctx));
                    assert(opt_error::<T12>(cx, e));
                    return Err(e);
                },
            };
            let ghost (before13, cx13) = (v13, ctx);
            let r13 = T13::try_parse_self(&mut v13, &mut ctx);
            let m13 = match r13 {
                Ok(m) => m,
                Err(e) => {
                    assert(T13::takes(before13, cx13, Err::<bool, CliError>(e), v13, ctx));
                    assert(opt_error::<T13>(cx, e));
                    return Err(e);
                },
            };
            if !(m1 || m2 || m3 || m4 || m5 || m6 || m7 || m8 || m9 || m10 || m11 || m12 || m13) {
                break;
            }
        }
        let ghost tail_cx = ctx;
        let rt = F::try_parse_self(ctx);
        let tail = match rt {
            Ok(t) => t,
            Err(e) => {
                assert(F::tail_takes(tail_cx, Err::<F, CliError>(e)));
                assert(tail_error::<F>(cx, e));
                return Err(e);
            },
        };
        let ghost fin1 = v1;
        let fr1 = T1::finalize(v1);
        let x1 = match fr1 {
            Ok(x) => x,
            Err(e) => {
                assert(T1::finalizes(fin1, Err::<T1, CliError>(e)));
                assert(opt_error::<T1>(cx, e));
                return Err(e);
            },
        };
        assert(T1::finalizes(fin1, Ok::<T1, CliError>(x1)));
        let ghost fin2 = v2;
        let fr2 = T2::finalize(v2);
        let x2 = match fr2 {
            Ok(x) => x,
            Err(e) => {
                assert(T2::finalizes(fin2, Err::<T2, CliError>(e)));
                assert(opt_error::<T2>(cx, e));
                return Err(e);
            },
        };
        assert(T2::finalizes(fin2, Ok::<T2, CliError>(x2)));
        let ghost fin3 = v3;
        let fr3 = T3::finalize(v3);
        let x3 = match fr3 {
            Ok(x) => x,
            Err(e) => {
                assert(T3::finalizes(fin3, Err::<T3, CliError>(e)));
                assert(opt_error::<T3>(cx, e));
                return Err(e);
            },
        };
        assert(T3::finalizes(fin3, Ok::<T3, CliError>(x3)));
        let ghost fin4 = v4;
        let fr4 = T4::finalize(v4);
        let x4 = match fr4 {
            Ok(x) => x,
            Err(e) => {
                assert(T4::finalizes(fin4, Err::<T4, CliError>(e)));
                assert(opt_error::<T4>(cx, e));
                return Err(e);
            },
        };
        assert(T4::finalizes(fin4, Ok::<T4, CliError>(x4)));
        let ghost fin5 = v5;
        let fr5 = T5::finalize(v5);
        let x5 = match fr5 {
            Ok(x) => x,
            Err(e) => {
                assert(T5::finalizes(fin5, Err::<T5, CliError>(e)));
                assert(opt_error::<T5>(cx, e));
                return Err(e);
            },
        };
        assert(T5::finalizes(fin5, Ok::<T5, CliError>(x5)));
        let ghost fin6 = v6;
        let fr6 = T6::finalize(v6);
        let x6 = match fr6 {
            Ok(x) => x,
            Err(e) => {
                assert(T6::finalizes(fin6, Err::<T6, CliError>(e)));
                assert(opt_error::<T6>(cx, e));
                return Err(e);
            },
        };
        assert(T6::finalizes(fin6, Ok::<T6, CliError>(x6)));
        let ghost fin7 = v7;
        let fr7 = T7::finalize(v7);
        let x7 = match fr7 {
            Ok(x) => x,
            Err(e) => {
                assert(T7::finalizes(fin7, Err::<T7, CliError>(e)));
                assert(opt_error::<T7>(cx, e));
                return Err(e);
            },
        };
        assert(T7::finalizes(fin7, Ok::<T7, CliError>(x7)));
        let ghost fin8 = v8;
        let fr8 = T8::finalize(v8);
        let x8 = match fr8 {
            Ok(x) => x,
            Err(e) => {
                assert(T8::finalizes(fin8, Err::<T8, CliError>(e)));
                assert(opt_error::<T8>(cx, e));
                return Err(e);
            },
        };
        assert(T8::finalizes(fin8, Ok::<T8, CliError>(x8)));
        let ghost fin9 = v9;
        let fr9 = T9::finalize(v9);
        let x9 = match fr9 {
            Ok(x) => x,
            Err(e) => {
                assert(T9::finalizes(fin9, Err::<T9, CliError>(e)));
                assert(opt_error::<T9>(cx, e));
                return Err(e);
            },
        };
        assert(T9::finalizes(fin9, Ok::<T9, CliError>(x9)));
        let ghost fin10 = v10;
        let fr10 = T10::finalize(v10);
        let x10 = match fr10 {
            Ok(x) => x,
            Err(e) => {
                assert(T10::finalizes(fin10, Err::<T10, CliError>(e)));
                assert(opt_error::<T10>(cx, e));
                return Err(e);
            },
        };
        assert(T10::finalizes(fin10, Ok::<T10, CliError>(x10)));
        let ghost fin11 = v11;
        let fr11 = T11::finalize(v11);
        let x11 = match fr11 {
            Ok(x) => x,
            Err(e) => {
                assert(T11::finalizes(fin11, Err::<T11, CliError>(e)));
                assert(opt_error::<T11>(cx, e));
                return Err(e);
            },
        };
        assert(T11::finalizes(fin11, Ok::<T11, CliError>(x11)));
        let ghost fin12 = v12;
        let fr12 = T12::finalize(v12);
        let x12 = match fr12 {
            Ok(x) => x,
            Err(e) => {
                assert(T12::finalizes(fin12, Err::<T12, CliError>(e)));
                assert(opt_error::<T12>(cx, e));
                return Err(e);
            },
        };
        assert(T12::finalizes(fin12, Ok::<T12, CliError>(x12)));
        let ghost fin13 = v13;
        let fr13 = T13::finalize(v13);
        let x13 = match fr13 {
            Ok(x) => x,
            Err(e) => {
                assert(T13::finalizes(fin13, Err::<T13, CliError>(e)));
                assert(opt_error::<T13>(cx, e));
                return Err(e);
            },
        };
        assert(T13::finalizes(fin13, Ok::<T13, CliError>(x13)));
        assert(F::tail_takes(tail_cx, Ok::<F, CliError>(tail)));
        let ghost gt = tail;
        let ghost gx1 = x1;
        let ghost gx2 = x2;
        let ghost gx3 = x3;
        let ghost gx4 = x4;
        let ghost gx5 = x5;
        let ghost gx6 = x6;
        let ghost gx7 = x7;
        let ghost gx8 = x8;
        let ghost gx9 = x9;
        let ghost gx10 = x10;
        let ghost gx11 = x11;
        let ghost gx12 = x12;
        let ghost gx13 = x13;
        callback(x1, x2, x3, x4, x5, x6, x7, x8, x9, x10, x11, x12, x13, tail);
        assert(call_ensures(callback, (gx1, gx2, gx3, gx4, gx5, gx6, gx7, gx8, gx9, gx10, gx11, gx12, gx13, gt), ()));
        Ok(ParseOutcome::Done)
    }
}

impl<C: FnOnce(T1, T2, T3, T4, T5, T6, T7, T8, T9, T10, T11, T12, T13, T14, F), T1: Opt, T2: Opt, T3: Opt, T4: Opt, T5: Opt, T6: Opt, T7: Opt, T8: Opt, T9: Opt, T10: Opt, T11: Opt, T12: Opt, T13: Opt, T14: Opt, F: FinalOpt> ParsingCallback<(T1, T2, T3, T4, T5, T6, T7, T8, T9, T10, T11, T12, T13, T14, F)> for C {
    open spec fn accepts_all(&self) -> bool {
        forall|a: T1, b: T2, c: T3, d: T4, e: T5, g: T6, h: T7, i: T8, j: T9, k: T10, l: T11, m: T12, n: T13, o: T14, t: F| call_requires(*self, (a, b, c, d, e, g, h, i, j, k, l, m, n, o, t))
    }

    /// Done: the callback was called with the final values of the options
    /// and the value the remaining arguments gave. Help: the documentation
    /// of the options and of the help flag. An error: one that taking an
    /// option, taking the remaining arguments or a final value gave.
    open spec fn outcome(&self, cx: ParsingContext, add_help: bool, r: Result<ParseOutcome, CliError>) -> bool {
        match r {
            Ok(ParseOutcome::Done) => exists|v1: Option<T1>, x1: T1, v2: Option<T2>, x2: T2, v3: Option<T3>, x3: T3, v4: Option<T4>, x4: T4, v5: Option<T5>, x5: T5, v6: Option<T6>, x6: T6, v7: Option<T7>, x7: T7, v8: Option<T8>, x8: T8, v9: Option<T9>, x9: T9, v10: Option<T10>, x10: T10, v11: Option<T11>, x11: T11, v12: Option<T12>, x12: T12, v13: Option<T13>, x13: T13, v14: Option<T14>, x14: T14, c: ParsingContext, t: F|
                #![trigger T1::finalizes(v1, Ok::<T1, CliError>(x1)), T2::finalizes(v2, Ok::<T2, CliError>(x2)), T3::finalizes(v3, Ok::<T3, CliError>(x3)), T4::finalizes(v4, Ok::<T4, CliError>(x4)), T5::finalizes(v5, Ok::<T5, CliError>(x5)), T6::finalizes(v6, Ok::<T6, CliError>(x6)), T7::finalizes(v7, Ok::<T7, CliError>(x7)), T8::finalizes(v8, Ok::<T8, CliError>(x8)), T9::finalizes(v9, Ok::<T9, CliError>(x9)), T10::finalizes(v10, Ok::<T10, CliError>(x10)), T11::finalizes(v11, Ok::<T11, CliError>(x11)), T12::finalizes(v12, Ok::<T12, CliError>(x12)), T13::finalizes(v13, Ok::<T13, CliError>(x13)), T14::finalizes(v14, Ok::<T14, CliError>(x14)), F::tail_takes(c, Ok::<F, CliError>(t))]
                T1::finalizes(v1, Ok::<T1, CliError>(x1)) &&
                T2::finalizes(v2, Ok::<T2, CliError>(x2)) &&
                T3::finalizes(v3, Ok::<T3, CliError>(x3)) &&
                T4::finalizes(v4, Ok::<T4, CliError>(x4)) &&
                T5::finalizes(v5, Ok::<T5, CliError>(x5)) &&
                T6::finalizes(v6, Ok::<T6, CliError>(x6)) &&
                T7::finalizes(v7, Ok::<T7, CliError>(x7)) &&
                T8::finalizes(v8, Ok::<T8, CliError>(x8)) &&
                T9::finalizes(v9, Ok::<T9, CliError>(x9)) &&
                T10::finalizes(v10, Ok::<T10, CliError>(x10)) &&
                T11::finalizes(v11, Ok::<T11, CliError>(x11)) &&
                T12::finalizes(v12, Ok::<T12, CliError>(x12)) &&
                T13::finalizes(v13, Ok::<T13, CliError>(x13)) &&
                T14::finalizes(v14, Ok::<T14, CliError>(x14)) &&
                F::tail_takes(c, Ok::<F, CliError>(t)) && after_options(cx, c) && call_ensures(*self, (x1, x2, x3, x4, x5, x6, x7, x8, x9, x10, x11, x12, x13, x14, t), ()),
            Ok(ParseOutcome::Help(d)) => add_help && exists|s1: DocumentationStore, s2: DocumentationStore, s3: DocumentationStore, s4: DocumentationStore, s5: DocumentationStore, s6: DocumentationStore, s7: DocumentationStore, s8: DocumentationStore, s9: DocumentationStore, s10: DocumentationStore, s11: DocumentationStore, s12: DocumentationStore, s13: DocumentationStore, s14: DocumentationStore|
                #![trigger T1::documents(cx.documentation, s1), T2::documents(s1, s2), T3::documents(s2, s3), T4::documents(s3, s4), T5::documents(s4, s5), T6::documents(s5, s6), T7::documents(s6, s7), T8::documents(s7, s8), T9::documents(s8, s9), T10::documents(s9, s10), T11::documents(s10, s11), T12::documents(s11, s12), T13::documents(s12, s13), T14::documents(s13, s14)]
                T1::documents(cx.documentation, s1) && T2::documents(s1, s2) && T3::documents(s2, s3) && T4::documents(s3, s4) && T5::documents(s4, s5) && T6::documents(s5, s6) && T7::documents(s6, s7) && T8::documents(s7, s8) && T9::documents(s8, s9) && T10::documents(s9, s10) && T11::documents(s10, s11) && T12::documents(s11, s12) && T13::documents(s12, s13) && T14::documents(s13, s14) && help_listed(s14, d),
            Err(e) => opt_error::<T1>(cx, e) || opt_error::<T2>(cx, e) || opt_error::<T3>(cx, e) || opt_error::<T4>(cx, e) || opt_error::<T5>(cx, e) || opt_error::<T6>(cx, e) || opt_error::<T7>(cx, e) || opt_error::<T8>(cx, e) || opt_error::<T9>(cx, e) || opt_error::<T10>(cx, e) || opt_error::<T11>(cx, e) || opt_error::<T12>(cx, e) || opt_error::<T13>(cx, e) || opt_error::<T14>(cx, e) || tail_error::<F>(cx, e),
        }
    }

    fn process(cx: ParsingContext, callback: Self, add_help: bool) -> (r: Result<ParseOutcome, CliError>) {
        let mut ctx = cx;
        T1::add_documentation(&mut ctx.documentation);
        let ghost s1 = ctx.documentation;
        T2::add_documentation(&mut ctx.documentation);
        let ghost s2 = ctx.documentation;
        T3::add_documentation(&mut ctx.documentation);
        let ghost s3 = ctx.documentation;
        T4::add_documentation(&mut ctx.documentation);
        let ghost s4 = ctx.documentation;
        T5::add_documentation(&mut ctx.documentation);
        let ghost s5 = ctx.documentation;
        T6::add_documentation(&mut ctx.documentation);
        let ghost s6 = ctx.documentation;
        T7::add_documentation(&mut ctx.documentation);
        let ghost s7 = ctx.documentation;
        T8::add_documentation(&mut ctx.documentation);
        let ghost s8 = ctx.documentation;
        T9::add_documentation(&mut ctx.documentation);
        let ghost s9 = ctx.documentation;
        T10::add_documentation(&mut ctx.documentation);
        let ghost s10 = ctx.documentation;
        T11::add_documentation(&mut ctx.documentation);
        let ghost s11 = ctx.documentation;
        T12::add_documentation(&mut ctx.documentation);
        let ghost s12 = ctx.documentation;
        T13::add_documentation(&mut ctx.documentation);
        let ghost s13 = ctx.documentation;
        T14::add_documentation(&mut ctx.documentation);
        let ghost s14 = ctx.documentation;
        document_help(&mut ctx, add_help);
        let ghost start = ctx;
        assert(cx.next_arg() == start.next_arg());
        proof {
            if add_help {
                assert(help_listed(s14, start.documentation));
                assert(callback.outcome(cx, add_help, Ok(ParseOutcome::Help(start.documentation))));
            }
        }
        let ghost wants_help = add_help && next_names(cx, help_names());
        let mut v1: Option<T1> = None;
        let mut v2: Option<T2> = None;
        let mut v3: Option<T3> = None;
        let mut v4: Option<T4> = None;
        let mut v5: Option<T5> = None;
        let mut v6: Option<T6> = None;
        let mut v7: Option<T7> = None;
        let mut v8: Option<T8> = None;
        let mut v9: Option<T9> = None;
        let mut v10: Option<T10> = None;
        let mut v11: Option<T11> = None;
        let mut v12: Option<T12> = None;
        let mut v13: Option<T13> = None;
        let mut v14: Option<T14> = None;
        loop
            invariant
                ctx.cursor <= ctx.args@.len(),
                ctx.documentation.wf(),
                ctx.documentation == start.documentation,
                ctx.args@ == start.args@,
                start.args@ == cx.args@,
                start.cursor == cx.cursor,
                ctx.cursor >= start.cursor,
                wants_help == (add_help && next_names(start, help_names())),
                wants_help == (add_help && next_names(cx, help_names())),
                wants_help ==> ctx.cursor == start.cursor,
                ctx.cursor == start.cursor ==> v1.is_none() && v2.is_none() && v3.is_none() && v4.is_none() && v5.is_none() && v6.is_none() && v7.is_none() && v8.is_none() && v9.is_none() && v10.is_none() && v11.is_none() && v12.is_none() && v13.is_none() && v14.is_none(),
                add_help ==> callback.outcome(cx, add_help, Ok(ParseOutcome::Help(start.documentation))),
            ensures
                !wants_help,
            decreases ctx.args@.len() - ctx.cursor,
        {
            let ghost at_start = ctx;
            proof {
                if wants_help {
                    assert(at_start.next_arg() == start.next_arg());
                }
            }
            if help_asked(&mut ctx, add_help) {
                return Ok(ParseOutcome::Help(ctx.documentation));
            }
            assert(!wants_help);
            let ghost (before1, cx1) = (v1, ctx);
            let r1 = T1::try_parse_self(&mut v1, &mut ctx);
            let m1 = match r1 {
                Ok(m) => m,
                Err(e) => {
                    assert(T1::takes(before1, cx1, Err::<bool, CliError>(e), v1, ctx));
                    assert(opt_error::<T1>(cx, e));
                    return Err(e);
                },
            };
            let ghost (before2, cx2) = (v2, ctx);
            let r2 = T2::try_parse_self(&mut v2, &mut ctx);
            let m2 = match r2 {
                Ok(m) => m,
                Err(e) => {
                    assert(T2::takes(before2, cx2, Err::<bool, CliError>(e), v2, ctx));
                    assert(opt_error::<T2>(cx, e));
                    return Err(e);
                },
            };
            let ghost (before3, cx3) = (v3, ctx);
            let r3 = T3::try_parse_self(&mut v3, &mut ctx);
            let m3 = match r3 {
                Ok(m) => m,
                Err(e) => {
                    assert(T3::takes(before3, cx3, Err::<bool, CliError>(e), v3, ctx));
                    assert(opt_error::<T3>(cx, e));
                    return Err(e);
                },
            };
            let ghost (before4, cx4) = (v4, ctx);
            let r4 = T4::try_parse_self(&mut v4, &mut ctx);
            let m4 = match r4 {
                Ok(m) => m,
                Err(e) => {
                    assert(T4::takes(before4, cx4, Err::<bool, CliError>(e), v4, ctx));
                    assert(opt_error::<T4>(cx, e));
                    return Err(e);
                },
            };
            let ghost (before5, cx5) = (v5, ctx);
            let r5 = T5::try_parse_self(&mut v5, &mut ctx);
            let m5 = match r5 {
                Ok(m) => m,
                Err(e) => {
                    assert(T5::takes(before5, cx5, Err::<bool, CliError>(e), v5, ctx));
                    assert(opt_error::<T5>(cx, e));
                    return Err(e);
                },
            };
            let ghost (before6, cx6) = (v6, ctx);
            let r6 = T6::try_parse_self(&mut v6, &mut ctx);
            let m6 = match r6 {
                Ok(m) => m,
                Err(e) => {
                    assert(T6::takes(before6, cx6, Err::<bool, CliError>(e), v6, ctx));
                    assert(opt_error::<T6>(cx, e));
                    return Err(e);
                },
            };
            let ghost (before7, cx7) = (v7, ctx);
            let r7 = T7::try_parse_self(&mut v7, &mut ctx);
            let m7 = match r7 {
                Ok(m) => m,
                Err(e) => {
                    assert(T7::takes(before7, cx7, Err::<bool, CliError>(e), v7, ctx));
                    assert(opt_error::<T7>(cx, e));
                    return Err(e);
                },
            };
            let ghost (before8, cx8) = (v8, ctx);
            let r8 = T8::try_parse_self(&mut v8, &mut ctx);
            let m8 = match r8 {
                Ok(m) => m,
                Err(e) => {
                    assert(T8::takes(before8, cx8, Err::<bool, CliError>(e), v8, ctx));
                    assert(opt_error::<T8>(cx, e));
                    return Err(e);
                },
            };
            let ghost (before9, cx9) = (v9, ctx);
            let r9 = T9::try_parse_self(&mut v9, &mut ctx);
            let m9 = match r9 {
                Ok(m) => m,
                Err(e) => {
                    assert(T9::takes(before9, cx9, Err::<bool, CliError>(e), v9, ctx));
                    assert(opt_error::<T9>(cx, e));
                    return Err(e);
                },
            };
            let ghost (before10, cx10) = (v10, ctx);
            let r10 = T10::try_parse_self(&mut v10, &mut ctx);
            let m10 = match r10 {
                Ok(m) => m,
                Err(e) => {
                    assert(T10::takes(before10, cx10, Err::<bool, CliError>(e), v10, ctx));
                    assert(opt_error::<T10>(cx, e));
                    return Err(e);
                },
            };
            let ghost (before11, cx11) = (v11, ctx);
            let r11 = T11::try_parse_self(&mut v11, &mut ctx);
            let m11 = match r11 {
                Ok(m) => m,
                Err(e) => {
                    assert(T11::takes(before11, cx11, Err::<bool, CliError>(e), v11, ctx));
                    assert(opt_error::<T11>(cx, e));
                    return Err(e);
                },
            };
            let ghost (before12, cx12) = (v12, ctx);
            let r12 = T12::try_parse_self(&mut v12, &mut ctx);
            let m12 = match r12 {
                Ok(m) => m,
                Err(e) => {
                    assert(T12::takes(before12, cx12, Err::<bool, CliError>(e), v12, ctx));
                    assert(opt_error::<T12>(cx, e));
                    return Err(e);
                },
            };
            let ghost (before13, cx13) = (v13, ctx);
            let r13 = T13::try_parse_self(&mut v13, &mut ctx);
            let m13 = match r13 {
                Ok(m) => m,
                Err(e) => {
                    assert(T13::takes(before13, cx13, Err::<bool, CliError>(e), v13, ctx));
                    assert(opt_error::<T13>(cx, e));
                    return Err(e);
                },
            };
            let ghost (before14, cx14) = (v14, ctx);
            let r14 = T14::try_parse_self(&mut v14, &mut ctx);
            let m14 = match r14 {
                Ok(m) => m,
                Err(e) => {
                    assert(T14::takes(before14, cx14, Err::<bool, CliError>(e), v14, ctx));
                    assert(opt_error::<T14>(cx, e));
                    return Err(e);
                },
            };
            if !(m1 || m2 || m3 || m4 || m5 || m6 || m7 || m8 || m9 || m10 || m11 || m12 || m13 || m14) {
                break;
            }
        }
        let ghost tail_cx = ctx;
        let rt = F::try_parse_self(ctx);
        let tail = match rt {
            Ok(t) => t,
            Err(e) => {
                assert(F::tail_takes(tail_cx, Err::<F, CliError>(e)));
                assert(tail_error::<F>(cx, e));
                return Err(e);
            },
        };
        let ghost fin1 = v1;
        let fr1 = T1::finalize(v1);
        let x1 = match fr1 {
            Ok(x) => x,
            Err(e) => {
                assert(T1::finalizes(fin1, Err::<T1, CliError>(e)));
                assert(opt_error::<T1>(cx, e));
                return Err(e);
            },
        };
        assert(T1::finalizes(fin1, Ok::<T1, CliError>(x1)));
        let ghost fin2 = v2;
        let fr2 = T2::finalize(v2);
        let x2 = match fr2 {
            Ok(x) => x,
            Err(e) => {
                assert(T2::finalizes(fin2, Err::<T2, CliError>(e)));
                assert(opt_error::<T2>(cx, e));
                return Err(e);
            },
        };
        assert(T2::finalizes(fin2, Ok::<T2, CliError>(x2)));
        let ghost fin3 = v3;
        let fr3 = T3::finalize(v3);
        let x3 = match fr3 {
            Ok(x) => x,
            Err(e) => {
                assert(T3::finalizes(fin3, Err::<T3, CliError>(e)));
                assert(opt_error::<T3>(cx, e));
                return Err(e);
            },
        };
        assert(T3::finalizes(fin3, Ok::<T3, CliError>(x3)));
        let ghost fin4 = v4;
        let fr4 = T4::finalize(v4);
        let x4 = match fr4 {
            Ok(x) => x,
            Err(e) => {
                assert(T4::finalizes(fin4, Err::<T4, CliError>(e)));
                assert(opt_error::<T4>(cx, e));
                return Err(e);
            },
        };
        assert(T4::finalizes(fin4, Ok::<T4, CliError>(x4)));
        let ghost fin5 = v5;
        let fr5 = T5::finalize(v5);
        let x5 = match fr5 {
            Ok(x) => x,
            Err(e) => {
                assert(T5::finalizes(fin5, Err::<T5, CliError>(e)));
                assert(opt_error::<T5>(cx, e));
                return Err(e);
            },
        };
        assert(T5::finalizes(fin5, Ok::<T5, CliError>(x5)));
        let ghost fin6 = v6;
        let fr6 = T6::finalize(v6);
        let x6 = match fr6 {
            Ok(x) => x,
            Err(e) => {
                assert(T6::finalizes(fin6, Err::<T6, CliError>(e)));
                assert(opt_error::<T6>(cx, e));
                return Err(e);
            },
        };
        assert(T6::finalizes(fin6, Ok::<T6, CliError>(x6)));
        let ghost fin7 = v7;
        let fr7 = T7::finalize(v7);
        let x7 = match fr7 {
            Ok(x) => x,
            Err(e) => {
                assert(T7::finalizes(fin7, Err::<T7, CliError>(e)));
                assert(opt_error::<T7>(cx, e));
                return Err(e);
            },
        };
        assert(T7::finalizes(fin7, Ok::<T7, CliError>(x7)));
        let ghost fin8 = v8;
        let fr8 = T8::finalize(v8);
        let x8 = match fr8 {
            Ok(x) => x,
            Err(e) => {
                assert(T8::finalizes(fin8, Err::<T8, CliError>(e)));
                assert(opt_error::<T8>(cx, e));
                return Err(e);
            },
        };
        assert(T8::finalizes(fin8, Ok::<T8, CliError>(x8)));
        let ghost fin9 = v9;
        let fr9 = T9::finalize(v9);
        let x9 = match fr9 {
            Ok(x) => x,
            Err(e) => {
                assert(T9::finalizes(fin9, Err::<T9, CliError>(e)));
                assert(opt_error::<T9>(cx, e));
                return Err(e);
            },
        };
        assert(T9::finalizes(fin9, Ok::<T9, CliError>(x9)));
        let ghost fin10 = v10;
        let fr10 = T10::finalize(v10);
        let x10 = match fr10 {
            Ok(x) => x,
            Err(e) => {
                assert(T10::finalizes(fin10, Err::<T10, CliError>(e)));
                assert(opt_error::<T10>(cx, e));
                return Err(e);
            },
        };
        assert(T10::finalizes(fin10, Ok::<T10, CliError>(x10)));
        let ghost fin11 = v11;
        let fr11 = T11::finalize(v11);
        let x11 = match fr11 {
            Ok(x) => x,
            Err(e) => {
                assert(T11::finalizes(fin11, Err::<T11, CliError>(e)));
                assert(opt_error::<T11>(cx, e));
                return Err(e);
            },
        };
        assert(T11::finalizes(fin11, Ok::<T11, CliError>(x11)));
        let ghost fin12 = v12;
        let fr12 = T12::finalize(v12);
        let x12 = match fr12 {
            Ok(x) => x,
            Err(e) => {
                assert(T12::finalizes(fin12, Err::<T12, CliError>(e)));
                assert(opt_error::<T12>(cx, e));
                return Err(e);
            },
        };
        assert(T12::finalizes(fin12, Ok::<T12, CliError>(x12)));
        let ghost fin13 = v13;
        let fr13 = T13::finalize(v13);
        let x13 = match fr13 {
            Ok(x) => x,
            Err(e) => {
                assert(T13::finalizes(fin13, Err::<T13, CliError>(e)));
                assert(opt_error::<T13>(cx, e));
                return Err(e);
            },
        };
        assert(T13::finalizes(fin13, Ok::<T13, CliError>(x13)));
        let ghost fin14 = v14;
        let fr14 = T14::finalize(v14);
        let x14 = match fr14 {
            Ok(x) => x,
            Err(e) => {
                assert(T14::finalizes(fin14, Err::<T14, CliError>(e)));
                assert(opt_error::<T14>(cx, e));
                return Err(e);
            },
        };
        assert(T14::finalizes(fin14, Ok::<T14, CliError>(x14)));
        assert(F::tail_takes(tail_cx, Ok::<F, CliError>(tail)));
        let ghost gt = tail;
        let ghost gx1 = x1;
        let ghost gx2 = x2;
        let ghost gx3 = x3;
        let ghost gx4 = x4;
        let ghost gx5 = x5;
        let ghost gx6 = x6;
        let ghost gx7 = x7;
        let ghost gx8 = x8;
        let ghost gx9 = x9;
        let ghost gx10 = x10;
        let ghost gx11 = x11;
        let ghost gx12 = x12;
        let ghost gx13 = x13;
        let ghost gx14 = x14;
        callback(x1, x2, x3, x4, x5, x6, x7, x8, x9, x10, x11, x12, x13, x14, tail);
        assert(call_ensures(callback, (gx1, gx2, gx3, gx4, gx5, gx6, gx7, gx8, gx9, gx10, gx11, gx12, gx13, gx14, gt), ()));
        Ok(ParseOutcome::Done)
    }
}

impl<C: FnOnce(T1, T2, T3, T4, T5, T6, T7, T8, T9, T10, T11, T12, T13, T14, T15, F), T1: Opt, T2: Opt, T3: Opt, T4: Opt, T5: Opt, T6: Opt, T7: Opt, T8: Opt, T9: Opt, T10: Opt, T11: Opt, T12: Opt, T13: Opt, T14: Opt, T15: Opt, F: FinalOpt> ParsingCallback<(T1, T2, T3, T4, T5, T6, T7, T8, T9, T10, T11, T12, T13, T14, T15, F)> for C {
    open spec fn accepts_all(&self) -> bool {
        forall|a: T1, b: T2, c: T3, d: T4, e: T5, g: T6, h: T7, i: T8, j: T9, k: T10, l: T11, m: T12, n: T13, o: T14, p: T15, t: F| call_requires(*self, (a, b, c, d, e, g, h, i, j, k, l, m, n, o, p, t))
    }

    /// Done: the callback was called with the final values of the options
    /// and the value the remaining arguments gave. Help: the documentation
    /// of the options and of the help flag. An error: one that taking an
    /// option, taking the remaining arguments or a final value gave.
    open spec fn outcome(&self, cx: ParsingContext, add_help: bool, r: Result<ParseOutcome, CliError>) -> bool {
        match r {
            Ok(ParseOutcome::Done) => exists|v1: Option<T1>, x1: T1, v2: Option<T2>, x2: T2, v3: Option<T3>, x3: T3, v4: Option<T4>, x4: T4, v5: Option<T5>, x5: T5, v6: Option<T6>, x6: T6, v7: Option<T7>, x7: T7, v8: Option<T8>, x8: T8, v9: Option<T9>, x9: T9, v10: Option<T10>, x10: T10, v11: Option<T11>, x11: T11, v12: Option<T12>, x12: T12, v13: Option<T13>, x13: T13, v14: Option<T14>, x14: T14, v15: Option<T15>, x15: T15, c: ParsingContext, t: F|
                #![trigger T1::finalizes(v1, Ok::<T1, CliError>(x1)), T2::finalizes(v2, Ok::<T2, CliError>(x2)), T3::finalizes(v3, Ok::<T3, CliError>(x3)), T4::finalizes(v4, Ok::<T4, CliError>(x4)), T5::finalizes(v5, Ok::<T5, CliError>(x5)), T6::finalizes(v6, Ok::<T6, CliError>(x6)), T7::finalizes(v7, Ok::<T7, CliError>(x7)), T8::finalizes(v8, Ok::<T8, CliError>(x8)), T9::finalizes(v9, Ok::<T9, CliError>(x9)), T10::finalizes(v10, Ok::<T10, CliError>(x10)), T11::finalizes(v11, Ok::<T11, CliError>(x11)), T12::finalizes(v12, Ok::<T12, CliError>(x12)), T13::finalizes(v13, Ok::<T13, CliError>(x13)), T14::finalizes(v14, Ok::<T14, CliError>(x14)), T15::finalizes(v15, Ok::<T15, CliError>(x15)), F::tail_takes(c, Ok::<F, CliError>(t))]
                T1::finalizes(v1, Ok::<T1, CliError>(x1)) &&
                T2::finalizes(v2, Ok::<T2, CliError>(x2)) &&
                T3::finalizes(v3, Ok::<T3, CliError>(x3)) &&
                T4::finalizes(v4, Ok::<T4, CliError>(x4)) &&
                T5::finalizes(v5, Ok::<T5, CliError>(x5)) &&
                T6::finalizes(v6, Ok::<T6, CliError>(x6)) &&
                T7::finalizes(v7, Ok::<T7, CliError>(x7)) &&
                T8::finalizes(v8, Ok::<T8, CliError>(x8)) &&
                T9::finalizes(v9, Ok::<T9, CliError>(x9)) &&
                T10::finalizes(v10, Ok::<T10, CliError>(x10)) &&
                T11::finalizes(v11, Ok::<T11, CliError>(x11)) &&
                T12::finalizes(v12, Ok::<T12, CliError>(x12)) &&
                T13::finalizes(v13, Ok::<T13, CliError>(x13)) &&
                T14::finalizes(v14, Ok::<T14, CliError>(x14)) &&
                T15::finalizes(v15, Ok::<T15, CliError>(x15)) &&
                F::tail_takes(c, Ok::<F, CliError>(t)) && after_options(cx, c) && call_ensures(*self, (x1, x2, x3, x4, x5, x6, x7, x8, x9, x10, x11, x12, x13, x14, x15, t), ()),
            Ok(ParseOutcome::Help(d)) => add_help && exists|s1: DocumentationStore, s2: DocumentationStore, s3: DocumentationStore, s4: DocumentationStore, s5: DocumentationStore, s6: DocumentationStore, s7: DocumentationStore, s8: DocumentationStore, s9: DocumentationStore, s10: DocumentationStore, s11: DocumentationStore, s12: DocumentationStore, s13: DocumentationStore, s14: DocumentationStore, s15: DocumentationStore|
                #![trigger T1::documents(cx.documentation, s1), T2::documents(s1, s2), T3::documents(s2, s3), T4::documents(s3, s4), T5::documents(s4, s5), T6::documents(s5, s6), T7::documents(s6, s7), T8::documents(s7, s8), T9::documents(s8, s9), T10::documents(s9, s10), T11::documents(s10, s11), T12::documents(s11, s12), T13::documents(s12, s13), T14::documents(s13, s14), T15::documents(s14, s15)]
                T1::documents(cx.documentation, s1) && T2::documents(s1, s2) && T3::documents(s2, s3) && T4::documents(s3, s4) && T5::documents(s4, s5) && T6::documents(s5, s6) && T7::documents(s6, s7) && T8::documents(s7, s8) && T9::documents(s8, s9) && T10::documents(s9, s10) && T11::documents(s10, s11) && T12::documents(s11, s12) && T13::documents(s12, s13) && T14::documents(s13, s14) && T15::documents(s14, s15) && help_listed(s15, d),
            Err(e) => opt_error::<T1>(cx, e) || opt_error::<T2>(cx, e) || opt_error::<T3>(cx, e) || opt_error::<T4>(cx, e) || opt_error::<T5>(cx, e) || opt_error::<T6>(cx, e) || opt_error::<T7>(cx, e) || opt_error::<T8>(cx, e) || opt_error::<T9>(cx, e) || opt_error::<T10>(cx, e) || opt_error::<T11>(cx, e) || opt_error::<T12>(cx, e) || opt_error::<T13>(cx, e) || opt_error::<T14>(cx, e) || opt_error::<T15>(cx, e) || tail_error::<F>(cx, e),
        }
    }

    fn process(cx: ParsingContext, callback: Self, add_help: bool) -> (r: Result<ParseOutcome, CliError>) {
        let mut ctx = cx;
        T1::add_documentation(&mut ctx.documentation);
        let ghost s1 = ctx.documentation;
        T2::add_documentation(&mut ctx.documentation);
        let ghost s2 = ctx.documentation;
        T3::add_documentation(&mut ctx.documentation);
        let ghost s3 = ctx.documentation;
        T4::add_documentation(&mut ctx.documentation);
        let ghost s4 = ctx.documentation;
        T5::add_documentation(&mut ctx.documentation);
        let ghost s5 = ctx.documentation;
        T6::add_documentation(&mut ctx.documentation);
        let ghost s6 = ctx.documentation;
        T7::add_documentation(&mut ctx.documentation);
        let ghost s7 = ctx.documentation;
        T8::add_documentation(&mut ctx.documentation);
        let ghost s8 = ctx.documentation;
        T9::add_documentation(&mut ctx.documentation);
        let ghost s9 = ctx.documentation;
        T10::add_documentation(&mut ctx.documentation);
        let ghost s10 = ctx.documentation;
        T11::add_documentation(&mut ctx.documentation);
        let ghost s11 = ctx.documentation;
        T12::add_documentation(&mut ctx.documentation);
        let ghost s12 = ctx.documentation;
        T13::add_documentation(&mut ctx.documentation);
        let ghost s13 = ctx.documentation;
        T14::add_documentation(&mut ctx.documentation);
        let ghost s14 = ctx.documentation;
        T15::add_documentation(&mut ctx.documentation);
        let ghost s15 = ctx.documentation;
        document_help(&mut ctx, add_help);
        let ghost start = ctx;
        assert(cx.next_arg() == start.next_arg());
        proof {
            if add_help {
                assert(help_listed(s15, start.documentation));
                assert(callback.outcome(cx, add_help, Ok(ParseOutcome::Help(start.documentation))));
            }
        }
        let ghost wants_help = add_help && next_names(cx, help_names());
        let mut v1: Option<T1> = None;
        let mut v2: Option<T2> = None;
        let mut v3: Option<T3> = None;
        let mut v4: Option<T4> = None;
        let mut v5: Option<T5> = None;
        let mut v6: Option<T6> = None;
        let mut v7: Option<T7> = None;
        let mut v8: Option<T8> = None;
        let mut v9: Option<T9> = None;
        let mut v10: Option<T10> = None;
        let mut v11: Option<T11> = None;
        let mut v12: Option<T12> = None;
        let mut v13: Option<T13> = None;
        let mut v14: Option<T14> = None;
        let mut v15: Option<T15> = None;
        loop
            invariant
                ctx.cursor <= ctx.args@.len(),
                ctx.documentation.wf(),
                ctx.documentation == start.documentation,
                ctx.args@ == start.args@,
                start.args@ == cx.args@,
                start.cursor == cx.cursor,
                ctx.cursor >= start.cursor,
                wants_help == (add_help && next_names(start, help_names())),
                wants_help == (add_help && next_names(cx, help_names())),
                wants_help ==> ctx.cursor == start.cursor,
                ctx.cursor == start.cursor ==> v1.is_none() && v2.is_none() && v3.is_none() && v4.is_none() && v5.is_none() && v6.is_none() && v7.is_none() && v8.is_none() && v9.is_none() && v10.is_none() && v11.is_none() && v12.is_none() && v13.is_none() && v14.is_none() && v15.is_none(),
                add_help ==> callback.outcome(cx, add_help, Ok(ParseOutcome::Help(start.documentation))),
            ensures
                !wants_help,
            decreases ctx.args@.len() - ctx.cursor,
        {
            let ghost at_start = ctx;
            proof {
                if wants_help {
                    assert(at_start.next_arg() == start.next_arg());
                }
            }
            if help_asked(&mut ctx, add_help) {
                return Ok(ParseOutcome::Help(ctx.documentation));
            }
            assert(!wants_help);
            let ghost (before1, cx1) = (v1, ctx);
            let r1 = T1::try_parse_self(&mut v1, &mut ctx);
            let m1 = match r1 {
                Ok(m) => m,
                Err(e) => {
                    assert(T1::takes(before1, cx1, Err::<bool, CliError>(e), v1, ctx));
                    assert(opt_error::<T1>(cx, e));
                    return Err(e);
                },
            };
            let ghost (before2, cx2) = (v2, ctx);
            let r2 = T2::try_parse_self(&mut v2, &mut ctx);
            let m2 = match r2 {
                Ok(m) => m,
                Err(e) => {
                    assert(T2::takes(before2, cx2, Err::<bool, CliError>(e), v2, ctx));
                    assert(opt_error::<T2>(cx, e));
                    return Err(e);
                },
            };
            let ghost (before3, cx3) = (v3, ctx);
            let r3 = T3::try_parse_self(&mut v3, &mut ctx);
            let m3 = match r3 {
                Ok(m) => m,
                Err(e) => {
                    assert(T3::takes(before3, cx3, Err::<bool, CliError>(e), v3, ctx));
                    assert(opt_error::<T3>(cx, e));
                    return Err(e);
                },
            };
            let ghost (before4, cx4) = (v4, ctx);
            let r4 = T4::try_parse_self(&mut v4, &mut ctx);
            let m4 = match r4 {
                Ok(m) => m,
                Err(e) => {
                    assert(T4::takes(before4, cx4, Err::<bool, CliError>(e), v4, ctx));
                    assert(opt_error::<T4>(cx, e));
                    return Err(e);
                },
            };
            let ghost (before5, cx5) = (v5, ctx);
            let r5 = T5::try_parse_self(&mut v5, &mut ctx);
            let m5 = match r5 {
                Ok(m) => m,
                Err(e) => {
                    assert(T5::takes(before5, cx5, Err::<bool, CliError>(e), v5, ctx));
                    assert(opt_error::<T5>(cx, e));
                    return Err(e);
                },
            };
            let ghost (before6, cx6) = (v6, ctx);
            let r6 = T6::try_parse_self(&mut v6, &mut ctx);
            let m6 = match r6 {
                Ok(m) => m,
                Err(e) => {
                    assert(T6::takes(before6, cx6, Err::<bool, CliError>(e), v6, ctx));
                    assert(opt_error::<T6>(cx, e));
                    return Err(e);
                },
            };
            let ghost (before7, cx7) = (v7, ctx);
            let r7 = T7::try_parse_self(&mut v7, &mut ctx);
            let m7 = match r7 {
                Ok(m) => m,
                Err(e) => {
                    assert(T7::takes(before7, cx7, Err::<bool, CliError>(e), v7, ctx));
                    assert(opt_error::<T7>(cx, e));
                    return Err(e);
                },
            };
            let ghost (before8, cx8) = (v8, ctx);
            let r8 = T8::try_parse_self(&mut v8, &mut ctx);
            let m8 = match r8 {
                Ok(m) => m,
                Err(e) => {
                    assert(T8::takes(before8, cx8, Err::<bool, CliError>(e), v8, ctx));
                    assert(opt_error::<T8>(cx, e));
                    return Err(e);
                },
            };
            let ghost (before9, cx9) = (v9, ctx);
            let r9 = T9::try_parse_self(&mut v9, &mut ctx);
            let m9 = match r9 {
                Ok(m) => m,
                Err(e) => {
                    assert(T9::takes(before9, cx9, Err::<bool, CliError>(e), v9, ctx));
                    assert(opt_error::<T9>(cx, e));
                    return Err(e);
                },
            };
            let ghost (before10, cx10) = (v10, ctx);
            let r10 = T10::try_parse_self(&mut v10, &mut ctx);
            let m10 = match r10 {
                Ok(m) => m,
                Err(e) => {
                    assert(T10::takes(before10, cx10, Err::<bool, CliError>(e), v10, ctx));
                    assert(opt_error::<T10>(cx, e));
                    return Err(e);
                },
            };
            let ghost (before11, cx11) = (v11, ctx);
            let r11 = T11::try_parse_self(&mut v11, &mut ctx);
            let m11 = match r11 {
                Ok(m) => m,
                Err(e) => {
                    assert(T11::takes(before11, cx11, Err::<bool, CliError>(e), v11, ctx));
                    assert(opt_error::<T11>(cx, e));
                    return Err(e);
                },
            };
            let ghost (before12, cx12) = (v12, ctx);
            let r12 = T12::try_parse_self(&mut v12, &mut ctx);
            let m12 = match r12 {
                Ok(m) => m,
                Err(e) => {
                    assert(T12::takes(before12, cx12, Err::<bool, CliError>(e), v12, ctx));
                    assert(opt_error::<T12>(cx, e));
                    return Err(e);
                },
            };
            let ghost (before13, cx13) = (v13, ctx);
            let r13 = T13::try_parse_self(&mut v13, &mut ctx);
            let m13 = match r13 {
                Ok(m) => m,
                Err(e) => {
                    assert(T13::takes(before13, cx13, Err::<bool, CliError>(e), v13, ctx));
                    assert(opt_error::<T13>(cx, e));
                    return Err(e);
                },
            };
            let ghost (before14, cx14) = (v14, ctx);
            let r14 = T14::try_parse_self(&mut v14, &mut ctx);
            let m14 = match r14 {
                Ok(m) => m,
                Err(e) => {
                    assert(T14::takes(before14, cx14, Err::<bool, CliError>(e), v14, ctx));
                    assert(opt_error::<T14>(cx, e));
                    return Err(e);
                },
            };
            let ghost (before15, cx15) = (v15, ctx);
            let r15 = T15::try_parse_self(&mut v15, &mut ctx);
            let m15 = match r15 {
                Ok(m) => m,
                Err(e) => {
                    assert(T15::takes(before15, cx15, Err::<bool, CliError>(e), v15, ctx));
                    assert(opt_error::<T15>(cx, e));
                    return Err(e);
                },
            };
            if !(m1 || m2 || m3 || m4 || m5 || m6 || m7 || m8 || m9 || m10 || m11 || m12 || m13 || m14 || m15) {
                break;
            }
        }
        let ghost tail_cx = ctx;
        let rt = F::try_parse_self(ctx);
        let tail = match rt {
            Ok(t) => t,
            Err(e) => {
                assert(F::tail_takes(tail_cx, Err::<F, CliError>(e)));
                assert(tail_error::<F>(cx, e));
                return Err(e);
            },
        };
        let ghost fin1 = v1;
        let fr1 = T1::finalize(v1);
        let x1 = match fr1 {
            Ok(x) => x,
            Err(e) => {
                assert(T1::finalizes(fin1, Err::<T1, CliError>(e)));
                assert(opt_error::<T1>(cx, e));
                return Err(e);
            },
        };
        assert(T1::finalizes(fin1, Ok::<T1, CliError>(x1)));
        let ghost fin2 = v2;
        let fr2 = T2::finalize(v2);
        let x2 = match fr2 {
            Ok(x) => x,
            Err(e) => {
                assert(T2::finalizes(fin2, Err::<T2, CliError>(e)));
                assert(opt_error::<T2>(cx, e));
                return Err(e);
            },
        };
        assert(T2::finalizes(fin2, Ok::<T2, CliError>(x2)));
        let ghost fin3 = v3;
        let fr3 = T3::finalize(v3);
        let x3 = match fr3 {
            Ok(x) => x,
            Err(e) => {
                assert(T3::finalizes(fin3, Err::<T3, CliError>(e)));
                assert(opt_error::<T3>(cx, e));
                return Err(e);
            },
        };
        assert(T3::finalizes(fin3, Ok::<T3, CliError>(x3)));
        let ghost fin4 = v4;
        let fr4 = T4::finalize(v4);
        let x4 = match fr4 {
            Ok(x) => x,
            Err(e) => {
                assert(T4::finalizes(fin4, Err::<T4, CliError>(e)));
                assert(opt_error::<T4>(cx, e));
                return Err(e);
            },
        };
        assert(T4::finalizes(fin4, Ok::<T4, CliError>(x4)));
        let ghost fin5 = v5;
        let fr5 = T5::finalize(v5);
        let x5 = match fr5 {
            Ok(x) => x,
            Err(e) => {
                assert(T5::finalizes(fin5, Err::<T5, CliError>(e)));
                assert(opt_error::<T5>(cx, e));
                return Err(e);
            },
        };
        assert(T5::finalizes(fin5, Ok::<T5, CliError>(x5)));
        let ghost fin6 = v6;
        let fr6 = T6::finalize(v6);
        let x6 = match fr6 {
            Ok(x) => x,
            Err(e) => {
                assert(T6::finalizes(fin6, Err::<T6, CliError>(e)));
                assert(opt_error::<T6>(cx, e));
                return Err(e);
            },
        };
        assert(T6::finalizes(fin6, Ok::<T6, CliError>(x6)));
        let ghost fin7 = v7;
        let fr7 = T7::finalize(v7);
        let x7 = match fr7 {
            Ok(x) => x,
            Err(e) => {
                assert(T7::finalizes(fin7, Err::<T7, CliError>(e)));
                assert(opt_error::<T7>(cx, e));
                return Err(e);
            },
        };
        assert(T7::finalizes(fin7, Ok::<T7, CliError>(x7)));
        let ghost fin8 = v8;
        let fr8 = T8::finalize(v8);
        let x8 = match fr8 {
            Ok(x) => x,
            Err(e) => {
                assert(T8::finalizes(fin8, Err::<T8, CliError>(e)));
                assert(opt_error::<T8>(cx, e));
                return Err(e);
            },
        };
        assert(T8::finalizes(fin8, Ok::<T8, CliError>(x8)));
        let ghost fin9 = v9;
        let fr9 = T9::finalize(v9);
        let x9 = match fr9 {
            Ok(x) => x,
            Err(e) => {
                assert(T9::finalizes(fin9, Err::<T9, CliError>(e)));
                assert(opt_error::<T9>(cx, e));
                return Err(e);
            },
        };
        assert(T9::finalizes(fin9, Ok::<T9, CliError>(x9)));
        let ghost fin10 = v10;
        let fr10 = T10::finalize(v10);
        let x10 = match fr10 {
            Ok(x) => x,
            Err(e) => {
                assert(T10::finalizes(fin10, Err::<T10, CliError>(e)));
                assert(opt_error::<T10>(cx, e));
                return Err(e);
            },
        };
        assert(T10::finalizes(fin10, Ok::<T10, CliError>(x10)));
        let ghost fin11 = v11;
        let fr11 = T11::finalize(v11);
        let x11 = match fr11 {
            Ok(x) => x,
            Err(e) => {
                assert(T11::finalizes(fin11, Err::<T11, CliError>(e)));
                assert(opt_error::<T11>(cx, e));
                return Err(e);
            },
        };
        assert(T11::finalizes(fin11, Ok::<T11, CliError>(x11)));
        let ghost fin12 = v12;
        let fr12 = T12::finalize(v12);
        let x12 = match fr12 {
            Ok(x) => x,
            Err(e) => {
                assert(T12::finalizes(fin12, Err::<T12, CliError>(e)));
                assert(opt_error::<T12>(cx, e));
                return Err(e);
            },
        };
        assert(T12::finalizes(fin12, Ok::<T12, CliError>(x12)));
        let ghost fin13 = v13;
        let fr13 = T13::finalize(v13);
        let x13 = match fr13 {
            Ok(x) => x,
            Err(e) => {
                assert(T13::finalizes(fin13, Err::<T13, CliError>(e)));
                assert(opt_error::<T13>(cx, e));
                return Err(e);
            },
        };
        assert(T13::finalizes(fin13, Ok::<T13, CliError>(x13)));
        let ghost fin14 = v14;
        let fr14 = T14::finalize(v14);
        let x14 = match fr14 {
            Ok(x) => x,
            Err(e) => {
                assert(T14::finalizes(fin14, Err::<T14, CliError>(e)));
                assert(opt_error::<T14>(cx, e));
                return Err(e);
            },
        };
        assert(T14::finalizes(fin14, Ok::<T14, CliError>(x14)));
        let ghost fin15 = v15;
        let fr15 = T15::finalize(v15);
        let x15 = match fr15 {
            Ok(x) => x,
            Err(e) => {
                assert(T15::finalizes(fin15, Err::<T15, CliError>(e)));
                assert(opt_error::<T15>(cx, e));
                return Err(e);
            },
        };
        assert(T15::finalizes(fin15, Ok::<T15, CliError>(x15)));
        assert(F::tail_takes(tail_cx, Ok::<F, CliError>(tail)));
        let ghost gt = tail;
        let ghost gx1 = x1;
        let ghost gx2 = x2;
        let ghost gx3 = x3;
        let ghost gx4 = x4;
        let ghost gx5 = x5;
        let ghost gx6 = x6;
        let ghost gx7 = x7;
        let ghost gx8 = x8;
        let ghost gx9 = x9;
        let ghost gx10 = x10;
        let ghost gx11 = x11;
        let ghost gx12 = x12;
        let ghost gx13 = x13;
        let ghost gx14 = x14;
        let ghost gx15 = x15;
        callback(x1, x2, x3, x4, x5, x6, x7, x8, x9, x10, x11, x12, x13, x14, x15, tail);
        assert(call_ensures(callback, (gx1, gx2, gx3, gx4, gx5, gx6, gx7, gx8, gx9, gx10, gx11, gx12, gx13, gx14, gx15, gt), ()));
        Ok(ParseOutcome::Done)
    }
}

impl<C: FnOnce(T1, T2, T3, T4, T5, T6, T7, T8, T9, T10, T11, T12, T13, T14, T15, T16, F), T1: Opt, T2: Opt, T3: Opt, T4: Opt, T5: Opt, T6: Opt, T7: Opt, T8: Opt, T9: Opt, T10: Opt, T11: Opt, T12: Opt, T13: Opt, T14: Opt, T15: Opt, T16: Opt, F: FinalOpt> ParsingCallback<(T1, T2, T3, T4, T5, T6, T7, T8, T9, T10, T11, T12, T13, T14, T15, T16, F)> for C {
    open spec fn accepts_all(&self) -> bool {
        forall|a: T1, b: T2, c: T3, d: T4, e: T5, g: T6, h: T7, i: T8, j: T9, k: T10, l: T11, m: T12, n: T13, o: T14, p: T15, q: T16, t: F| call_requires(*self, (a, b, c, d, e, g, h, i, j, k, l, m, n, o, p, q, t))
    }

    /// Done: the callback was called with the final values of the options
    /// and the value the remaining arguments gave. Help: the documentation
    /// of the options and of the help flag. An error: one that taking an
    /// option, taking the remaining arguments or a final value gave.
    open spec fn outcome(&self, cx: ParsingContext, add_help: bool, r: Result<ParseOutcome, CliError>) -> bool {
        match r {
            Ok(ParseOutcome::Done) => exists|v1: Option<T1>, x1: T1, v2: Option<T2>, x2: T2, v3: Option<T3>, x3: T3, v4: Option<T4>, x4: T4, v5: Option<T5>, x5: T5, v6: Option<T6>, x6: T6, v7: Option<T7>, x7: T7, v8: Option<T8>, x8: T8, v9: Option<T9>, x9: T9, v10: Option<T10>, x10: T10, v11: Option<T11>, x11: T11, v12: Option<T12>, x12: T12, v13: Option<T13>, x13: T13, v14: Option<T14>, x14: T14, v15: Option<T15>, x15: T15, v16: Option<T16>, x16: T16, c: ParsingContext, t: F|
                #![trigger T1::finalizes(v1, Ok::<T1, CliError>(x1)), T2::finalizes(v2, Ok::<T2, CliError>(x2)), T3::finalizes(v3, Ok::<T3, CliError>(x3)), T4::finalizes(v4, Ok::<T4, CliError>(x4)), T5::finalizes(v5, Ok::<T5, CliError>(x5)), T6::finalizes(v6, Ok::<T6, CliError>(x6)), T7::finalizes(v7, Ok::<T7, CliError>(x7)), T8::finalizes(v8, Ok::<T8, CliError>(x8)), T9::finalizes(v9, Ok::<T9, CliError>(x9)), T10::finalizes(v10, Ok::<T10, CliError>(x10)), T11::finalizes(v11, Ok::<T11, CliError>(x11)), T12::finalizes(v12, Ok::<T12, CliError>(x12)), T13::finalizes(v13, Ok::<T13, CliError>(x13)), T14::finalizes(v14, Ok::<T14, CliError>(x14)), T15::finalizes(v15, Ok::<T15, CliError>(x15)), T16::finalizes(v16, Ok::<T16, CliError>(x16)), F::tail_takes(c, Ok::<F, CliError>(t))]
                T1::finalizes(v1, Ok::<T1, CliError>(x1)) &&
                T2::finalizes(v2, Ok::<T2, CliError>(x2)) &&
                T3::finalizes(v3, Ok::<T3, CliError>(x3)) &&
                T4::finalizes(v4, Ok::<T4, CliError>(x4)) &&
                T5::finalizes(v5, Ok::<T5, CliError>(x5)) &&
                T6::finalizes(v6, Ok::<T6, CliError>(x6)) &&
                T7::finalizes(v7, Ok::<T7, CliError>(x7)) &&
                T8::finalizes(v8, Ok::<T8, CliError>(x8)) &&
                T9::finalizes(v9, Ok::<T9, CliError>(x9)) &&
                T10::finalizes(v10, Ok::<T10, CliError>(x10)) &&
                T11::finalizes(v11, Ok::<T11, CliError>(x11)) &&
                T12::finalizes(v12, Ok::<T12, CliError>(x12)) &&
                T13::finalizes(v13, Ok::<T13, CliError>(x13)) &&
                T14::finalizes(v14, Ok::<T14, CliError>(x14)) &&
                T15::finalizes(v15, Ok::<T15, CliError>(x15)) &&
                T16::finalizes(v16, Ok::<T16, CliError>(x16)) &&
                F::tail_takes(c, Ok::<F, CliError>(t)) && after_options(cx, c) && call_ensures(*self, (x1, x2, x3, x4, x5, x6, x7, x8, x9, x10, x11, x12, x13, x14, x15, x16, t), ()),
            Ok(ParseOutcome::Help(d)) => add_help && exists|s1: DocumentationStore, s2: DocumentationStore, s3: DocumentationStore, s4: DocumentationStore, s5: DocumentationStore, s6: DocumentationStore, s7: DocumentationStore, s8: DocumentationStore, s9: DocumentationStore, s10: DocumentationStore, s11: DocumentationStore, s12: DocumentationStore, s13: DocumentationStore, s14: DocumentationStore, s15: DocumentationStore, s16: DocumentationStore|
                #![trigger T1::documents(cx.documentation, s1), T2::documents(s1, s2), T3::documents(s2, s3), T4::documents(s3, s4), T5::documents(s4, s5), T6::documents(s5, s6), T7::documents(s6, s7), T8::documents(s7, s8), T9::documents(s8, s9), T10::documents(s9, s10), T11::documents(s10, s11), T12::documents(s11, s12), T13::documents(s12, s13), T14::documents(s13, s14), T15::documents(s14, s15), T16::documents(s15, s16)]
                T1::documents(cx.documentation, s1) && T2::documents(s1, s2) && T3::documents(s2, s3) && T4::documents(s3, s4) && T5::documents(s4, s5) && T6::documents(s5, s6) && T7::documents(s6, s7) && T8::documents(s7, s8) && T9::documents(s8, s9) && T10::documents(s9, s10) && T11::documents(s10, s11) && T12::documents(s11, s12) && T13::documents(s12, s13) && T14::documents(s13, s14) && T15::documents(s14, s15) && T16::documents(s15, s16) && help_listed(s16, d),
            Err(e) => opt_error::<T1>(cx, e) || opt_error::<T2>(cx, e) || opt_error::<T3>(cx, e) || opt_error::<T4>(cx, e) || opt_error::<T5>(cx, e) || opt_error::<T6>(cx, e) || opt_error::<T7>(cx, e) || opt_error::<T8>(cx, e) || opt_error::<T9>(cx, e) || opt_error::<T10>(cx, e) || opt_error::<T11>(cx, e) || opt_error::<T12>(cx, e) || opt_error::<T13>(cx, e) || opt_error::<T14>(cx, e) || opt_error::<T15>(cx, e) || opt_error::<T16>(cx, e) || tail_error::<F>(cx, e),
        }
    }

    fn process(cx: ParsingContext, callback: Self, add_help: bool) -> (r: Result<ParseOutcome, CliError>) {
        let mut ctx = cx;
        T1::add_documentation(&mut ctx.documentation);
        let ghost s1 = ctx.documentation;
        T2::add_documentation(&mut ctx.documentation);
        let ghost s2 = ctx.documentation;
        T3::add_documentation(&mut ctx.documentation);
        let ghost s3 = ctx.documentation;
        T4::add_documentation(&mut ctx.documentation);
        let ghost s4 = ctx.documentation;
        T5::add_documentation(&mut ctx.documentation);
        let ghost s5 = ctx.documentation;
        T6::add_documentation(&mut ctx.documentation);
        let ghost s6 = ctx.documentation;
        T7::add_documentation(&mut ctx.documentation);
        let ghost s7 = ctx.documentation;
        T8::add_documentation(&mut ctx.documentation);
        let ghost s8 = ctx.documentation;
        T9::add_documentation(&mut ctx.documentation);
        let ghost s9 = ctx.documentation;
        T10::add_documentation(&mut ctx.documentation);
        let ghost s10 = ctx.documentation;
        T11::add_documentation(&mut ctx.documentation);
        let ghost s11 = ctx.documentation;
        T12::add_documentation(&mut ctx.documentation);
        let ghost s12 = ctx.documentation;
        T13::add_documentation(&mut ctx.documentation);
        let ghost s13 = ctx.documentation;
        T14::add_documentation(&mut ctx.documentation);
        let ghost s14 = ctx.documentation;
        T15::add_documentation(&mut ctx.documentation);
        let ghost s15 = ctx.documentation;
        T16::add_documentation(&mut ctx.documentation);
        let ghost s16 = ctx.documentation;
        document_help(&mut ctx, add_help);
        let ghost start = ctx;
        assert(cx.next_arg() == start.next_arg());
        proof {
            if add_help {
                assert(help_listed(s16, start.documentation));
                assert(callback.outcome(cx, add_help, Ok(ParseOutcome::Help(start.documentation))));
            }
        }
        let ghost wants_help = add_help && next_names(cx, help_names());
        let mut v1: Option<T1> = None;
        let mut v2: Option<T2> = None;
        let mut v3: Option<T3> = None;
        let mut v4: Option<T4> = None;
        let mut v5: Option<T5> = None;
        let mut v6: Option<T6> = None;
        let mut v7: Option<T7> = None;
        let mut v8: Option<T8> = None;
        let mut v9: Option<T9> = None;
        let mut v10: Option<T10> = None;
        let mut v11: Option<T11> = None;
        let mut v12: Option<T12> = None;
        let mut v13: Option<T13> = None;
        let mut v14: Option<T14> = None;
        let mut v15: Option<T15> = None;
        let mut v16: Option<T16> = None;
        loop
            invariant
                ctx.cursor <= ctx.args@.len(),
                ctx.documentation.wf(),
                ctx.documentation == start.documentation,
                ctx.args@ == start.args@,
                start.args@ == cx.args@,
                start.cursor == cx.cursor,
                ctx.cursor >= start.cursor,
                wants_help == (add_help && next_names(start, help_names())),
                wants_help == (add_help && next_names(cx, help_names())),
                wants_help ==> ctx.cursor == start.cursor,
                ctx.cursor == start.cursor ==> v1.is_none() && v2.is_none() && v3.is_none() && v4.is_none() && v5.is_none() && v6.is_none() && v7.is_none() && v8.is_none() && v9.is_none() && v10.is_none() && v11.is_none() && v12.is_none() && v13.is_none() && v14.is_none() && v15.is_none() && v16.is_none(),
                add_help ==> callback.outcome(cx, add_help, Ok(ParseOutcome::Help(start.documentation))),
            ensures
                !wants_help,
            decreases ctx.args@.len() - ctx.cursor,
        {
            let ghost at_start = ctx;
            proof {
                if wants_help {
                    assert(at_start.next_arg() == start.next_arg());
                }
            }
            if help_asked(&mut ctx, add_help) {
                return Ok(ParseOutcome::Help(ctx.documentation));
            }
            assert(!wants_help);
            let ghost (before1, cx1) = (v1, ctx);
            let r1 = T1::try_parse_self(&mut v1, &mut ctx);
            let m1 = match r1 {
                Ok(m) => m,
                Err(e) => {
                    assert(T1::takes(before1, cx1, Err::<bool, CliError>(e), v1, ctx));
                    assert(opt_error::<T1>(cx, e));
                    return Err(e);
                },
            };
            let ghost (before2, cx2) = (v2, ctx);
            let r2 = T2::try_parse_self(&mut v2, &mut ctx);
            let m2 = match r2 {
                Ok(m) => m,
                Err(e) => {
                    assert(T2::takes(before2, cx2, Err::<bool, CliError>(e), v2, ctx));
                    assert(opt_error::<T2>(cx, e));
                    return Err(e);
                },
            };
            let ghost (before3, cx3) = (v3, ctx);
            let r3 = T3::try_parse_self(&mut v3, &mut ctx);
            let m3 = match r3 {
                Ok(m) => m,
                Err(e) => {
                    assert(T3::takes(before3, cx3, Err::<bool, CliError>(e), v3, ctx));
                    assert(opt_error::<T3>(cx, e));
                    return Err(e);
                },
            };
            let ghost (before4, cx4) = (v4, ctx);
            let r4 = T4::try_parse_self(&mut v4, &mut ctx);
            let m4 = match r4 {
                Ok(m) => m,
                Err(e) => {
                    assert(T4::takes(before4, cx4, Err::<bool, CliError>(e), v4, ctx));
                    assert(opt_error::<T4>(cx, e));
                    return Err(e);
                },
            };
            let ghost (before5, cx5) = (v5, ctx);
            let r5 = T5::try_parse_self(&mut v5, &mut ctx);
            let m5 = match r5 {
                Ok(m) => m,
                Err(e) => {
                    assert(T5::takes(before5, cx5, Err::<bool, CliError>(e), v5, ctx));
                    assert(opt_error::<T5>(cx, e));
                    return Err(e);
                },
            };
            let ghost (before6, cx6) = (v6, ctx);
            let r6 = T6::try_parse_self(&mut v6, &mut ctx);
            let m6 = match r6 {
                Ok(m) => m,
                Err(e) => {
                    assert(T6::takes(before6, cx6, Err::<bool, CliError>(e), v6, ctx));
                    assert(opt_error::<T6>(cx, e));
                    return Err(e);
                },
            };
            let ghost (before7, cx7) = (v7, ctx);
            let r7 = T7::try_parse_self(&mut v7, &mut ctx);
            let m7 = match r7 {
                Ok(m) => m,
                Err(e) => {
                    assert(T7::takes(before7, cx7, Err::<bool, CliError>(e), v7, ctx));
                    assert(opt_error::<T7>(cx, e));
                    return Err(e);
                },
            };
            let ghost (before8, cx8) = (v8, ctx);
            let r8 = T8::try_parse_self(&mut v8, &mut ctx);
            let m8 = match r8 {
                Ok(m) => m,
                Err(e) => {
                    assert(T8::takes(before8, cx8, Err::<bool, CliError>(e), v8, ctx));
                    assert(opt_error::<T8>(cx, e));
                    return Err(e);
                },
            };
            let ghost (before9, cx9) = (v9, ctx);
            let r9 = T9::try_parse_self(&mut v9, &mut ctx);
            let m9 = match r9 {
                Ok(m) => m,
                Err(e) => {
                    assert(T9::takes(before9, cx9, Err::<bool, CliError>(e), v9, ctx));
                    assert(opt_error::<T9>(cx, e));
                    return Err(e);
                },
            };
            let ghost (before10, cx10) = (v10, ctx);
            let r10 = T10::try_parse_self(&mut v10, &mut ctx);
            let m10 = match r10 {
                Ok(m) => m,
                Err(e) => {
                    assert(T10::takes(before10, cx10, Err::<bool, CliError>(e), v10, ctx));
                    assert(opt_error::<T10>(cx, e));
                    return Err(e);
                },
            };
            let ghost (before11, cx11) = (v11, ctx);
            let r11 = T11::try_parse_self(&mut v11, &mut ctx);
            let m11 = match r11 {
                Ok(m) => m,
                Err(e) => {
                    assert(T11::takes(before11, cx11, Err::<bool, CliError>(e), v11, ctx));
                    assert(opt_error::<T11>(cx, e));
                    return Err(e);
                },
            };
            let ghost (before12, cx12) = (v12, ctx);
            let r12 = T12::try_parse_self(&mut v12, &mut ctx);
            let m12 = match r12 {
                Ok(m) => m,
                Err(e) => {
                    assert(T12::takes(before12, cx12, Err::<bool, CliError>(e), v12, ctx));
                    assert(opt_error::<T12>(cx, e));
                    return Err(e);
                },
            };
            let ghost (before13, cx13) = (v13, ctx);
            let r13 = T13::try_parse_self(&mut v13, &mut ctx);
            let m13 = match r13 {
                Ok(m) => m,
                Err(e) => {
                    assert(T13::takes(before13, cx13, Err::<bool, CliError>(e), v13, ctx));
                    assert(opt_error::<T13>(cx, e));
                    return Err(e);
                },
            };
            let ghost (before14, cx14) = (v14, ctx);
            let r14 = T14::try_parse_self(&mut v14, &mut ctx);
            let m14 = match r14 {
                Ok(m) => m,
                Err(e) => {
                    assert(T14::takes(before14, cx14, Err::<bool, CliError>(e), v14, ctx));
                    assert(opt_error::<T14>(cx, e));
                    return Err(e);
                },
            };
            let ghost (before15, cx15) = (v15, ctx);
            let r15 = T15::try_parse_self(&mut v15, &mut ctx);
            let m15 = match r15 {
                Ok(m) => m,
                Err(e) => {
                    assert(T15::takes(before15, cx15, Err::<bool, CliError>(e), v15, ctx));
                    assert(opt_error::<T15>(cx, e));
                    return Err(e);
                },
            };
            let ghost (before16, cx16) = (v16, ctx);
            let r16 = T16::try_parse_self(&mut v16, &mut ctx);
            let m16 = match r16 {
                Ok(m) => m,
                Err(e) => {
                    assert(T16::takes(before16, cx16, Err::<bool, CliError>(e), v16, ctx));
                    assert(opt_error::<T16>(cx, e));
                    return Err(e);
                },
            };
            if !(m1 || m2 || m3 || m4 || m5 || m6 || m7 || m8 || m9 || m10 || m11 || m12 || m13 || m14 || m15 || m16) {
                break;
            }
        }
        let ghost tail_cx = ctx;
        let rt = F::try_parse_self(ctx);
        let tail = match rt {
            Ok(t) => t,
            Err(e) => {
                assert(F::tail_takes(tail_cx, Err::<F, CliError>(e)));
                assert(tail_error::<F>(cx, e));
                return Err(e);
            },
        };
        let ghost fin1 = v1;
        let fr1 = T1::finalize(v1);
        let x1 = match fr1 {
            Ok(x) => x,
            Err(e) => {
                assert(T1::finalizes(fin1, Err::<T1, CliError>(e)));
                assert(opt_error::<T1>(cx, e));
                return Err(e);
            },
        };
        assert(T1::finalizes(fin1, Ok::<T1, CliError>(x1)));
        let ghost fin2 = v2;
        let fr2 = T2::finalize(v2);
        let x2 = match fr2 {
            Ok(x) => x,
            Err(e) => {
                assert(T2::finalizes(fin2, Err::<T2, CliError>(e)));
                assert(opt_error::<T2>(cx, e));
                return Err(e);
            },
        };
        assert(T2::finalizes(fin2, Ok::<T2, CliError>(x2)));
        let ghost fin3 = v3;
        let fr3 = T3::finalize(v3);
        let x3 = match fr3 {
            Ok(x) => x,
            Err(e) => {
                assert(T3::finalizes(fin3, Err::<T3, CliError>(e)));
                assert(opt_error::<T3>(cx, e));
                return Err(e);
            },
        };
        assert(T3::finalizes(fin3, Ok::<T3, CliError>(x3)));
        let ghost fin4 = v4;
        let fr4 = T4::finalize(v4);
        let x4 = match fr4 {
            Ok(x) => x,
            Err(e) => {
                assert(T4::finalizes(fin4, Err::<T4, CliError>(e)));
                assert(opt_error::<T4>(cx, e));
                return Err(e);
            },
        };
        assert(T4::finalizes(fin4, Ok::<T4, CliError>(x4)));
        let ghost fin5 = v5;
        let fr5 = T5::finalize(v5);
        let x5 = match fr5 {
            Ok(x) => x,
            Err(e) => {
                assert(T5::finalizes(fin5, Err::<T5, CliError>(e)));
                assert(opt_error::<T5>(cx, e));
                return Err(e);
            },
        };
        assert(T5::finalizes(fin5, Ok::<T5, CliError>(x5)));
        let ghost fin6 = v6;
        let fr6 = T6::finalize(v6);
        let x6 = match fr6 {
            Ok(x) => x,
            Err(e) => {
                assert(T6::finalizes(fin6, Err::<T6, CliError>(e)));
                assert(opt_error::<T6>(cx, e));
                return Err(e);
            },
        };
        assert(T6::finalizes(fin6, Ok::<T6, CliError>(x6)));
        let ghost fin7 = v7;
        let fr7 = T7::finalize(v7);
        let x7 = match fr7 {
            Ok(x) => x,
            Err(e) => {
                assert(T7::finalizes(fin7, Err::<T7, CliError>(e)));
                assert(opt_error::<T7>(cx, e));
                return Err(e);
            },
        };
        assert(T7::finalizes(fin7, Ok::<T7, CliError>(x7)));
        let ghost fin8 = v8;
        let fr8 = T8::finalize(v8);
        let x8 = match fr8 {
            Ok(x) => x,
            Err(e) => {
                assert(T8::finalizes(fin8, Err::<T8, CliError>(e)));
                assert(opt_error::<T8>(cx, e));
                return Err(e);
            },
        };
        assert(T8::finalizes(fin8, Ok::<T8, CliError>(x8)));
        let ghost fin9 = v9;
        let fr9 = T9::finalize(v9);
        let x9 = match fr9 {
            Ok(x) => x,
            Err(e) => {
                assert(T9::finalizes(fin9, Err::<T9, CliError>(e)));
                assert(opt_error::<T9>(cx, e));
                return Err(e);
            },
        };
        assert(T9::finalizes(fin9, Ok::<T9, CliError>(x9)));
        let ghost fin10 = v10;
        let fr10 = T10::finalize(v10);
        let x10 = match fr10 {
            Ok(x) => x,
            Err(e) => {
                assert(T10::finalizes(fin10, Err::<T10, CliError>(e)));
                assert(opt_error::<T10>(cx, e));
                return Err(e);
            },
        };
        assert(T10::finalizes(fin10, Ok::<T10, CliError>(x10)));
        let ghost fin11 = v11;
        let fr11 = T11::finalize(v11);
        let x11 = match fr11 {
            Ok(x) => x,
            Err(e) => {
                assert(T11::finalizes(fin11, Err::<T11, CliError>(e)));
                assert(opt_error::<T11>(cx, e));
                return Err(e);
            },
        };
        assert(T11::finalizes(fin11, Ok::<T11, CliError>(x11)));
        let ghost fin12 = v12;
        let fr12 = T12::finalize(v12);
        let x12 = match fr12 {
            Ok(x) => x,
            Err(e) => {
                assert(T12::finalizes(fin12, Err::<T12, CliError>(e)));
                assert(opt_error::<T12>(cx, e));
                return Err(e);
            },
        };
        assert(T12::finalizes(fin12, Ok::<T12, CliError>(x12)));
        let ghost fin13 = v13;
        let fr13 = T13::finalize(v13);
        let x13 = match fr13 {
            Ok(x) => x,
            Err(e) => {
                assert(T13::finalizes(fin13, Err::<T13, CliError>(e)));
                assert(opt_error::<T13>(cx, e));
                return Err(e);
            },
        };
        assert(T13::finalizes(fin13, Ok::<T13, CliError>(x13)));
        let ghost fin14 = v14;
        let fr14 = T14::finalize(v14);
        let x14 = match fr14 {
            Ok(x) => x,
            Err(e) => {
                assert(T14::finalizes(fin14, Err::<T14, CliError>(e)));
                assert(opt_error::<T14>(cx, e));
                return Err(e);
            },
        };
        assert(T14::finalizes(fin14, Ok::<T14, CliError>(x14)));
        let ghost fin15 = v15;
        let fr15 = T15::finalize(v15);
        let x15 = match fr15 {
            Ok(x) => x,
            Err(e) => {
                assert(T15::finalizes(fin15, Err::<T15, CliError>(e)));
                assert(opt_error::<T15>(cx, e));
                return Err(e);
            },
        };
        assert(T15::finalizes(fin15, Ok::<T15, CliError>(x15)));
        let ghost fin16 = v16;
        let fr16 = T16::finalize(v16);
        let x16 = match fr16 {
            Ok(x) => x,
            Err(e) => {
                assert(T16::finalizes(fin16, Err::<T16, CliError>(e)));
                assert(opt_error::<T16>(cx, e));
                return Err(e);
            },
        };
        assert(T16::finalizes(fin16, Ok::<T16, CliError>(x16)));
        assert(F::tail_takes(tail_cx, Ok::<F, CliError>(tail)));
        let ghost gt = tail;
        let ghost gx1 = x1;
        let ghost gx2 = x2;
        let ghost gx3 = x3;
        let ghost gx4 = x4;
        let ghost gx5 = x5;
        let ghost gx6 = x6;
        let ghost gx7 = x7;
        let ghost gx8 = x8;
        let ghost gx9 = x9;
        let ghost gx10 = x10;
        let ghost gx11 = x11;
        let ghost gx12 = x12;
        let ghost gx13 = x13;
        let ghost gx14 = x14;
        let ghost gx15 = x15;
        let ghost gx16 = x16;
        callback(x1, x2, x3, x4, x5, x6, x7, x8, x9, x10, x11, x12, x13, x14, x15, x16, tail);
        assert(call_ensures(callback, (gx1, gx2, gx3, gx4, gx5, gx6, gx7, gx8, gx9, gx10, gx11, gx12, gx13, gx14, gx15, gx16, gt), ()));
        Ok(ParseOutcome::Done)
    }
}

impl ParsingContext {
    /// Parses the arguments for `callback`; see `ParsingCallback::process`.
    pub fn parse<C: ParsingCallback<Inputs>, Inputs>(self, callback: C, add_help: bool) -> (r: Result<
        ParseOutcome,
        CliError,
    >)
        requires
            self.cursor <= self.args@.len(),
            self.documentation.wf(),
            callback.accepts_all(),
        ensures
            r matches Ok(ParseOutcome::Help(d)) ==> add_help && d.wf(),
            add_help && next_names(self, help_names()) ==> r matches Ok(ParseOutcome::Help(_)),
            callback.outcome(self, add_help, r),
    {
        C::process(self, callback, add_help)
    }
}

} // verus!
