//! Help text of command-line options, grouped by section, and the
//! properties of flags.
use vstd::prelude::*;
use vstd::utf8::encode_utf8;
use crate::sections::{add_to_sections, sections_view, sections_wf, spec_add_entry};
use crate::text::{
    push_char,
    blen, join, lemma_bytes_lt_irrefl, lemma_bytes_lt_total, lemma_bytes_lt_trans,
    lemma_encode_injective, push_joined, push_spaces, spaces, str_lt, str_order, strs_view,
    StrOrder,
};

verus! {

/// The names an option answers to.
#[derive(Debug)]
pub struct OptNames {
    pub main: &'static str,
    pub short: Option<&'static str>,
    pub aliases: &'static [&'static str],
}

/// The help entry of an option: the section it is listed under, its names
/// and what it does.
pub struct Documentation {
    pub section: &'static str,
    pub names: OptNames,
    pub description: &'static str,
}

/// One section: its name and its entries in the order they were added.
pub type Section = (&'static str, Vec<(OptNames, &'static str)>);

/// The help of a program: a text about the program itself and its options,
/// grouped by section; sections are kept in the order of their names.
pub struct DocumentationStore {
    pub item_docs: &'static str,
    pub store: Vec<Section>,
}

impl DocumentationStore {
    /// Sections come in strictly increasing order of their names, and none is empty.
    pub open spec fn wf(&self) -> bool {
        sections_wf(self.store@)
    }
}

impl Default for DocumentationStore {
    fn default() -> (r: Self)
        ensures
            r.item_docs@ == Seq::<char>::empty(),
            r.store@.len() == 0,
    {
        proof {
            reveal_strlit("");
        }
        DocumentationStore { item_docs: "", store: Vec::new() }
    }
}

/// The widest main name of a section, in bytes.
pub open spec fn max_main(items: Seq<(OptNames, &str)>) -> nat
    decreases items.len(),
{
    if items.len() == 0 {
        0
    } else {
        let rest = max_main(items.drop_last());
        let w = blen(items.last().0.main@);
        if w > rest {
            w
        } else {
            rest
        }
    }
}

/// The widest short name of a section, in bytes; `None` when no entry has one.
pub open spec fn max_short(items: Seq<(OptNames, &str)>) -> Option<nat>
    decreases items.len(),
{
    if items.len() == 0 {
        None
    } else {
        let rest = max_short(items.drop_last());
        match items.last().0.short {
            None => rest,
            Some(s) => {
                let w = blen(s@);
                match rest {
                    Some(r) => if w > r {
                        Some(w)
                    } else {
                        Some(r)
                    },
                    None => Some(w),
                }
            },
        }
    }
}

/// The help line of one entry. The short names form a column (`-s,`) as wide
/// as the widest of the section, the main names a column as wide as the
/// widest; then come the description and the aliases.
/// The short-name column: `-s,` padded to the widest short name of the
/// section, blank when the entry has none, three spaces when no entry has one.
pub open spec fn short_part(w_short: Option<nat>, names: OptNames) -> Seq<char> {
    match w_short {
        Some(ws) => match names.short {
            Some(s) => s@ + ",".view() + spaces((ws + 1 - (blen(s@) + 1)) as nat),
            None => spaces(ws + 1),
        },
        None => "   ".view(),
    }
}

/// `[aliases: a, b]`, or nothing when there are no aliases.
pub open spec fn aliases_part(names: OptNames) -> Seq<char> {
    if names.aliases@.len() == 0 {
        Seq::empty()
    } else {
        "[aliases: ".view() + join(strs_view(names.aliases@), ", ".view()) + "]".view()
    }
}

/// The help line of one entry. The short names form a column as wide as the
/// widest of the section, the main names a column as wide as the widest;
/// then come the description and the aliases.
pub open spec fn item_line(w_main: nat, w_short: Option<nat>, names: OptNames, desc: Seq<char>) -> Seq<
    char,
> {
    "  \x1b[1m".view() + short_part(w_short, names) + " ".view() + names.main@ + spaces(
        (w_main - blen(names.main@)) as nat,
    ) + "\x1b[0m  ".view() + desc + " ".view() + aliases_part(names) + "\n".view()
}

pub open spec fn items_text(items: Seq<(OptNames, &str)>, w_main: nat, w_short: Option<nat>) -> Seq<
    char,
>
    decreases items.len(),
{
    if items.len() == 0 {
        Seq::empty()
    } else {
        items_text(items.drop_last(), w_main, w_short) + item_line(
            w_main,
            w_short,
            items.last().0,
            items.last().1@,
        )
    }
}

/// A blank line, the underlined section title in the plural, and the lines
/// of its entries.
pub open spec fn section_text(s: Section) -> Seq<char> {
    "\n".view() + "\x1b[1;4m".view() + s.0@ + "s:\x1b[0m\n".view() + items_text(
        s.1@,
        max_main(s.1@),
        max_short(s.1@),
    )
}

pub open spec fn sections_text(v: Seq<Section>) -> Seq<char>
    decreases v.len(),
{
    if v.len() == 0 {
        Seq::empty()
    } else {
        sections_text(v.drop_last()) + section_text(v.last())
    }
}

/// The whole help text: the program's own text on a line when it has one,
/// then every section.
pub open spec fn spec_build(item_docs: Seq<char>, v: Seq<Section>) -> Seq<char> {
    (if item_docs.len() == 0 {
        Seq::empty()
    } else {
        item_docs + "\n".view()
    }) + sections_text(v)
}

/// No name is so long that one more byte would not fit in `usize`.
pub open spec fn names_fit(v: Seq<Section>) -> bool {
    forall|i: int, j: int|
        0 <= i < v.len() && 0 <= j < v[i].1@.len() ==> short_fits(#[trigger] v[i].1@[j])
}

pub open spec fn short_fits(e: (OptNames, &str)) -> bool {
    &&& blen(e.0.main@) <= usize::MAX
    &&& (e.0.short matches Some(s) ==> blen(s@) < usize::MAX)
}

fn widths(items: &Vec<(OptNames, &'static str)>) -> (r: (usize, Option<usize>))
    requires
        forall|j: int| 0 <= j < items@.len() ==> short_fits(#[trigger] items@[j]),
    ensures
        r.0 == max_main(items@),
        r.1 matches Some(ws) ==> max_short(items@) == Some(ws as nat) && ws < usize::MAX,
        r.1 is None ==> max_short(items@) is None,
{
    let mut w_main: usize = 0;
    let mut w_short: Option<usize> = None;
    let mut k: usize = 0;
    while k < items.len()
        invariant
            k <= items@.len(),
            forall|j: int| 0 <= j < items@.len() ==> short_fits(#[trigger] items@[j]),
            w_main == max_main(items@.subrange(0, k as int)),
            w_short matches Some(ws) ==> max_short(items@.subrange(0, k as int)) == Some(ws as nat)
                && ws < usize::MAX,
            w_short is None ==> max_short(items@.subrange(0, k as int)) is None,
        decreases items.len() - k,
    {
        let ghost sub = items@.subrange(0, k + 1);
        assert(sub.drop_last() =~= items@.subrange(0, k as int));
        assert(sub.last() == items@[k as int]);
        let names = &items[k].0;
        let w = names.main.len();
        if w > w_main {
            w_main = w;
        }
        match names.short {
            None => {},
            Some(s) => {
                let ws = s.len();
                w_short = match w_short {
                    Some(r) => if ws > r {
                        Some(ws)
                    } else {
                        Some(r)
                    },
                    None => Some(ws),
                };
            },
        }
        k += 1;
    }
    assert(items@.subrange(0, items@.len() as int) =~= items@);
    (w_main, w_short)
}

fn push_short_part(out: &mut String, w_short: Option<usize>, names: &OptNames)
    requires
        w_short matches Some(ws) ==> (names.short matches Some(s) ==> blen(s@) <= ws)
            && ws < usize::MAX,
    ensures
        final(out)@ == old(out)@ + short_part(
            match w_short {
                Some(ws) => Some(ws as nat),
                None => None,
            },
            *names,
        ),
{
    let ghost start = out@;
    match w_short {
        Some(ws) => match names.short {
            Some(s) => {
                out.append(s);
                out.append(",");
                push_spaces(out, ws + 1 - (s.len() + 1));
                assert(out@ =~= start + (s@ + ",".view() + spaces((ws + 1 - (blen(s@) + 1)) as nat)));
            },
            None => {
                push_spaces(out, ws + 1);
            },
        },
        None => {
            out.append("   ");
        },
    }
}

fn push_aliases_part(out: &mut String, names: &OptNames)
    ensures
        final(out)@ == old(out)@ + aliases_part(*names),
{
    let ghost start = out@;
    if names.aliases.len() > 0 {
        out.append("[aliases: ");
        push_joined(out, names.aliases, ", ");
        out.append("]");
        assert(out@ =~= start + aliases_part(*names));
    } else {
        assert(out@ =~= start + aliases_part(*names));
    }
}

fn push_item_line(
    out: &mut String,
    w_main: usize,
    w_short: Option<usize>,
    names: &OptNames,
    desc: &str,
)
    requires
        w_main >= blen(names.main@),
        w_short matches Some(ws) ==> (names.short matches Some(s) ==> blen(s@) <= ws)
            && ws < usize::MAX,
    ensures
        final(out)@ == old(out)@ + item_line(
            w_main as nat,
            match w_short {
                Some(ws) => Some(ws as nat),
                None => None,
            },
            *names,
            desc@,
        ),
{
    let ghost start = out@;
    let ghost ws_nat = match w_short {
        Some(ws) => Some(ws as nat),
        None => None,
    };
    out.append("  \x1b[1m");
    let ghost a = out@;
    push_short_part(out, w_short, names);
    let ghost b = out@;
    out.append(" ");
    out.append(names.main);
    push_spaces(out, w_main - names.main.len());
    let ghost c = out@;
    assert(c == b + " ".view() + names.main@ + spaces((w_main - blen(names.main@)) as nat));
    out.append("\x1b[0m  ");
    out.append(desc);
    out.append(" ");
    let ghost d = out@;
    push_aliases_part(out, names);
    out.append("\n");
    assert(out@ =~= start + item_line(w_main as nat, ws_nat, *names, desc@));
}

pub proof fn lemma_max_main(items: Seq<(OptNames, &str)>, j: int)
    requires
        0 <= j < items.len(),
    ensures
        blen(items[j].0.main@) <= max_main(items),
    decreases items.len(),
{
    if j < items.len() - 1 {
        lemma_max_main(items.drop_last(), j);
    }
}

pub proof fn lemma_max_short(items: Seq<(OptNames, &str)>, j: int)
    requires
        0 <= j < items.len(),
    ensures
        items[j].0.short matches Some(s) ==> max_short(items) matches Some(ws) && blen(s@) <= ws,
    decreases items.len(),
{
    if j < items.len() - 1 {
        lemma_max_short(items.drop_last(), j);
    }
}

impl DocumentationStore {
    /// Lists `docs` under its section, after the entries already there; a
    /// new section takes its place in the order of section names.
    pub fn add(&mut self, docs: Documentation)
        requires
            old(self).wf(),
        ensures
            final(self).wf(),
            final(self).item_docs == old(self).item_docs,
            sections_view(final(self).store@) == spec_add_entry(
                sections_view(old(self).store@),
                docs.section@,
                (docs.names, docs.description),
            ),
    {
        add_to_sections(&mut self.store, docs.section, (docs.names, docs.description));
    }

    /// The help text: the program's own text on a line when it is not empty,
    /// then, for each section in order, a blank line, the underlined section
    /// name in the plural and one line per entry.
    pub fn build(&self) -> (r: String)
        requires
            self.wf(),
            names_fit(self.store@),
        ensures
            r@ == spec_build(self.item_docs@, self.store@),
    {
        let mut output = String::new();
        if !self.item_docs.is_empty() {
            output.append(self.item_docs);
            output.append("\n");
        }
        let ghost head = output@;
        assert(head =~= (if self.item_docs@.len() == 0 {
            Seq::empty()
        } else {
            self.item_docs@ + "\n".view()
        }));
        let mut k: usize = 0;
        while k < self.store.len()
            invariant
                k <= self.store@.len(),
                self.wf(),
                names_fit(self.store@),
                output@ == head + sections_text(self.store@.subrange(0, k as int)),
            decreases self.store.len() - k,
        {
            let ghost before = output@;
            let section = &self.store[k];
            let items = &section.1;
            assert forall|j: int| 0 <= j < items@.len() implies short_fits(#[trigger] items@[j]) by {
                assert(self.store@[k as int].1@[j] == items@[j]);
            }
            let (w_main, w_short) = widths(items);
            output.append("\n");
            output.append("\x1b[1;4m");
            output.append(section.0);
            output.append("s:\x1b[0m\n");
            let ghost title = output@;
            let ghost ws_nat = match w_short {
                Some(ws) => Some(ws as nat),
                None => None,
            };
            let mut j: usize = 0;
            while j < items.len()
                invariant
                    j <= items@.len(),
                    w_main == max_main(items@),
                    ws_nat == max_short(items@),
                    w_short matches Some(ws) ==> ws < usize::MAX && ws_nat == Some(ws as nat),
                    w_short is None ==> ws_nat is None,
                    output@ == title + items_text(items@.subrange(0, j as int), w_main as nat, ws_nat),
                decreases items.len() - j,
            {
                proof {
                    lemma_max_main(items@, j as int);
                    lemma_max_short(items@, j as int);
                }
                push_item_line(&mut output, w_main, w_short, &items[j].0, items[j].1);
                j += 1;
                assert(items@.subrange(0, j as int).drop_last() =~= items@.subrange(0, j - 1));
            }
            assert(items@.subrange(0, items@.len() as int) =~= items@);
            k += 1;
            assert(self.store@.subrange(0, k as int).drop_last() =~= self.store@.subrange(0, k - 1));
            assert(output@ =~= head + sections_text(self.store@.subrange(0, k as int)));
        }
        assert(self.store@.subrange(0, self.store@.len() as int) =~= self.store@);
        output
    }
}

/// Everything known of a flag: its long name (used as `--name`), its
/// optional one-letter name (used as `-c`) and its optional description.
#[derive(Hash, PartialEq, Eq, Clone, Debug)]
pub struct FlagProperies {
    pub long_name: String,
    pub short_name: Option<char>,
    pub description: Option<String>,
}

impl FlagProperies {
    /// `--` followed by the long name.
    pub fn long_flag(&self) -> (r: String)
        ensures
            r@ == seq!['-', '-'] + self.long_name@,
    {
        let mut r = String::new();
        push_char(&mut r, '-');
        push_char(&mut r, '-');
        r.append(self.long_name.as_str());
        assert(r@ =~= seq!['-', '-'] + self.long_name@);
        r
    }

    /// `-` followed by the one-letter name, when there is one.
    pub fn short_flag(&self) -> (r: Option<String>)
        ensures
            match self.short_name {
                Some(c) => r matches Some(s) && s@ == seq!['-', c],
                None => r is None,
            },
    {
        match self.short_name {
            Some(short) => {
                let mut r = String::new();
                push_char(&mut r, '-');
                push_char(&mut r, short);
                assert(r@ =~= seq!['-', short]);
                Some(r)
            },
            None => None,
        }
    }
}

pub(crate) trait Sealed {}

pub open spec fn opt_string_view(o: Option<String>) -> Option<Seq<char>> {
    match o {
        Some(s) => Some(s@),
        None => None,
    }
}

/// A flag given by its long name, optionally its letter, and optionally a
/// description: `((long,),)`, `((long,), description)`, `((long, letter),)`
/// or `((long, letter), description)`.
#[allow(private_bounds)]
pub trait Flag: Sealed {
    spec fn spec_long_name(&self) -> Seq<char>;

    spec fn spec_short_name(&self) -> Option<char>;

    spec fn spec_description(&self) -> Option<Seq<char>>;

    fn long_name(&self) -> (r: String)
        ensures
            r@ == self.spec_long_name(),
    ;

    fn short_name(&self) -> (r: Option<char>)
        ensures
            r == self.spec_short_name(),
    ;

    fn description(&self) -> (r: Option<String>)
        ensures
            opt_string_view(r) == self.spec_description(),
    ;

    /// All of the flag's properties at once.
    fn full_properies(&self) -> (r: FlagProperies)
        ensures
            r.long_name@ == self.spec_long_name(),
            r.short_name == self.spec_short_name(),
            opt_string_view(r.description) == self.spec_description(),
    {
        FlagProperies {
            long_name: self.long_name(),
            short_name: self.short_name(),
            description: self.description(),
        }
    }
}

impl Sealed for ((&str,),) {}

impl Flag for ((&str,),) {
    open spec fn spec_long_name(&self) -> Seq<char> {
        self.0.0@
    }

    open spec fn spec_short_name(&self) -> Option<char> {
        None
    }

    open spec fn spec_description(&self) -> Option<Seq<char>> {
        None
    }

    fn long_name(&self) -> (r: String) {
        self.0.0.to_owned()
    }

    fn short_name(&self) -> (r: Option<char>) {
        None
    }

    fn description(&self) -> (r: Option<String>) {
        None
    }
}

impl Sealed for ((&str,), &str) {}

impl Flag for ((&str,), &str) {
    open spec fn spec_long_name(&self) -> Seq<char> {
        self.0.0@
    }

    open spec fn spec_short_name(&self) -> Option<char> {
        None
    }

    open spec fn spec_description(&self) -> Option<Seq<char>> {
        Some(self.1@)
    }

    fn long_name(&self) -> (r: String) {
        self.0.0.to_owned()
    }

    fn short_name(&self) -> (r: Option<char>) {
        None
    }

    fn description(&self) -> (r: Option<String>) {
        Some(self.1.to_owned())
    }
}

impl Sealed for ((&str, char),) {}

impl Flag for ((&str, char),) {
    open spec fn spec_long_name(&self) -> Seq<char> {
        self.0.0@
    }

    open spec fn spec_short_name(&self) -> Option<char> {
        Some(self.0.1)
    }

    open spec fn spec_description(&self) -> Option<Seq<char>> {
        None
    }

    fn long_name(&self) -> (r: String) {
        self.0.0.to_owned()
    }

    fn short_name(&self) -> (r: Option<char>) {
        Some(self.0.1)
    }

    fn description(&self) -> (r: Option<String>) {
        None
    }
}

impl Sealed for ((&str, char), &str) {}

impl Flag for ((&str, char), &str) {
    open spec fn spec_long_name(&self) -> Seq<char> {
        self.0.0@
    }

    open spec fn spec_short_name(&self) -> Option<char> {
        Some(self.0.1)
    }

    open spec fn spec_description(&self) -> Option<Seq<char>> {
        Some(self.1@)
    }

    fn long_name(&self) -> (r: String) {
        self.0.0.to_owned()
    }

    fn short_name(&self) -> (r: Option<char>) {
        Some(self.0.1)
    }

    fn description(&self) -> (r: Option<String>) {
        Some(self.1.to_owned())
    }
}

} // verus!
