//! Writing HTML out: a tree of elements and text lines, each line indented
//! by its depth in the tree.
use vstd::prelude::*;
use crate::html_attributes::{attribute_text, strings_view, HtmlAttribute};
use crate::html_elements::{trim, trim_str};
use crate::text::push_char;

verus! {

/// How deep the next line goes, and the text that one level of depth adds
/// in front of a line.
pub struct Indentation {
    pub level: usize,
    pub unit: String,
}

/// The text in front of a line at depth `level`.
pub open spec fn indent_text(unit: Seq<char>, level: nat) -> Seq<char>
    decreases level,
{
    if level == 0 {
        Seq::empty()
    } else {
        indent_text(unit, (level - 1) as nat) + unit
    }
}

/// Where the output goes, how deep the element being written stands, and
/// the style sheets the document's head lists.
pub struct Context {
    pub indentation: Indentation,
    pub output: String,
    pub styles: Vec<String>,
}

impl Context {
    /// A context at depth zero with nothing written yet; each level of depth
    /// puts `unit` in front of a line.
    pub fn new(unit: String) -> (r: Self)
        ensures
            r.indentation.level == 0,
            r.indentation.unit@ == unit@,
            r.output@.len() == 0,
            r.styles@.len() == 0,
    {
        Context { indentation: Indentation { level: 0, unit }, output: String::new(), styles: Vec::new() }
    }
}

/// A piece of a document: a line of text, an element, or the style sheets
/// of the context as a `style` element.
pub enum Node {
    Text(String),
    Element(GenericHtmlElement),
    Styles,
}

/// An element as it is written: its tag name, its attributes, its children,
/// and the children that are written out before them although they are
/// produced after them.
pub struct GenericHtmlElement {
    pub name: String,
    pub attributes: Vec<HtmlAttribute>,
    pub children: Vec<Node>,
    pub late_children: Vec<Node>,
}

/// The attributes of a start tag, one after the other.
pub open spec fn attributes_text(attrs: Seq<HtmlAttribute>) -> Seq<char>
    decreases attrs.len(),
{
    if attrs.len() == 0 {
        Seq::empty()
    } else {
        attributes_text(attrs.drop_last()) + attribute_text(attrs.last())
    }
}

/// What a node writes at depth `level`: a text is one line; an element is
/// written as its start tag, its late children and its children one level
/// deeper, and its end tag, or as one empty-element tag when it has no
/// children.
pub open spec fn node_text(n: Node, unit: Seq<char>, level: nat, styles: Seq<Seq<char>>) -> Seq<char>
    decreases n,
{
    match n {
        Node::Text(s) => indent_text(unit, level) + s@ + seq!['\n'],
        Node::Element(e) => element_text(e, unit, level, styles),
        Node::Styles => style_text(unit, level, styles),
    }
}

pub open spec fn element_text(
    e: GenericHtmlElement,
    unit: Seq<char>,
    level: nat,
    styles: Seq<Seq<char>>,
) -> Seq<char>
    decreases e,
{
    let start = indent_text(unit, level) + seq!['<'] + e.name@ + attributes_text(e.attributes@);
    if e.children@.len() == 0 {
        start + seq!['/', '>', '\n']
    } else {
        start + seq!['>', '\n'] + nodes_text(e.late_children@, unit, level + 1, styles) + nodes_text(
            e.children@,
            unit,
            level + 1,
            styles,
        ) + indent_text(unit, level) + seq!['<', '/'] + e.name@ + seq!['>', '\n']
    }
}

pub open spec fn nodes_text(
    nodes: Seq<Node>,
    unit: Seq<char>,
    level: nat,
    styles: Seq<Seq<char>>,
) -> Seq<char>
    decreases nodes,
{
    if nodes.len() == 0 {
        Seq::empty()
    } else {
        nodes_text(nodes.subrange(0, nodes.len() - 1), unit, level, styles) + node_text(
            nodes[nodes.len() - 1],
            unit,
            level,
            styles,
        )
    }
}

/// The style sheets, each without surrounding white space and followed by
/// a blank line.
pub open spec fn styles_body(styles: Seq<Seq<char>>) -> Seq<char>
    decreases styles.len(),
{
    if styles.len() == 0 {
        Seq::empty()
    } else {
        styles_body(styles.drop_last()) + trim(styles.last()) + seq!['\n', '\n']
    }
}

/// A `style` element listing the style sheets; the sheets are written
/// without indentation.
pub open spec fn style_text(unit: Seq<char>, level: nat, styles: Seq<Seq<char>>) -> Seq<char> {
    indent_text(unit, level) + "<style>\n"@ + seq!['\n'] + styles_body(styles) + indent_text(unit, level)
        + "</style>\n"@
}

/// How many levels below a node the deepest node lies.
pub open spec fn node_height(n: Node) -> nat
    decreases n,
{
    match n {
        Node::Text(_) => 0,
        Node::Element(e) => element_height(e),
        Node::Styles => 1,
    }
}

pub open spec fn element_height(e: GenericHtmlElement) -> nat
    decreases e,
{
    let below = if nodes_height(e.children@) >= nodes_height(e.late_children@) {
        nodes_height(e.children@)
    } else {
        nodes_height(e.late_children@)
    };
    below + 1
}

pub open spec fn nodes_height(nodes: Seq<Node>) -> nat
    decreases nodes,
{
    if nodes.len() == 0 {
        0
    } else {
        let rest = nodes_height(nodes.subrange(0, nodes.len() - 1));
        let last = node_height(nodes[nodes.len() - 1]);
        if rest >= last {
            rest
        } else {
            last
        }
    }
}

proof fn lemma_nodes_height(nodes: Seq<Node>, k: int)
    requires
        0 <= k <= nodes.len(),
    ensures
        nodes_height(nodes.subrange(0, k)) <= nodes_height(nodes),
        k < nodes.len() ==> node_height(nodes[k]) <= nodes_height(nodes),
    decreases nodes.len(),
{
    if nodes.len() > 0 {
        let init = nodes.subrange(0, nodes.len() - 1);
        if k < nodes.len() {
            lemma_nodes_height(init, k);
            assert(init.subrange(0, k) =~= nodes.subrange(0, k));
            if k < nodes.len() - 1 {
                assert(init[k] == nodes[k]);
            }
        } else {
            assert(nodes.subrange(0, k) =~= nodes);
        }
    }
}

/// Appends the text in front of a line at the given depth.
fn push_indent(out: &mut String, indentation: &Indentation)
    ensures
        final(out)@ == old(out)@ + indent_text(indentation.unit@, indentation.level as nat),
{
    let ghost start = out@;
    let mut k: usize = 0;
    while k < indentation.level
        invariant
            k <= indentation.level,
            out@ == start + indent_text(indentation.unit@, k as nat),
        decreases indentation.level - k,
    {
        out.append(indentation.unit.as_str());
        k += 1;
        assert(out@ =~= start + indent_text(indentation.unit@, k as nat));
    }
}

/// Appends the attributes of a start tag.
fn push_attributes(out: &mut String, attrs: &Vec<HtmlAttribute>)
    ensures
        final(out)@ == old(out)@ + attributes_text(attrs@),
{
    let ghost start = out@;
    let mut k: usize = 0;
    while k < attrs.len()
        invariant
            k <= attrs@.len(),
            out@ == start + attributes_text(attrs@.subrange(0, k as int)),
        decreases attrs.len() - k,
    {
        let text = attrs[k].render();
        out.append(text.as_str());
        k += 1;
        assert(attrs@.subrange(0, k as int).drop_last() =~= attrs@.subrange(0, k - 1));
        assert(out@ =~= start + attributes_text(attrs@.subrange(0, k as int)));
    }
    assert(attrs@.subrange(0, attrs@.len() as int) =~= attrs@);
}

/// The context is `before` with text appended, at the same depth, with the
/// same unit of indentation and the same style sheets.
pub open spec fn appended_output(before: Context, after: Context, text: Seq<char>) -> bool {
    &&& after.output@ == before.output@ + text
    &&& after.indentation.level == before.indentation.level
    &&& after.indentation.unit@ == before.indentation.unit@
    &&& after.styles@ == before.styles@
}

/// Writes each node one level deeper than the context stands.
fn render_children(nodes: &Vec<Node>, cx: &mut Context)
    requires
        old(cx).indentation.level + 1 + nodes_height(nodes@) <= usize::MAX,
    ensures
        appended_output(
            *old(cx),
            *final(cx),
            nodes_text(
                nodes@,
                old(cx).indentation.unit@,
                (old(cx).indentation.level + 1) as nat,
                strings_view(old(cx).styles@),
            ),
        ),
    decreases nodes@,
{
    let ghost start = cx.output@;
    let ghost unit = cx.indentation.unit@;
    let ghost level = cx.indentation.level;
    let ghost styles = cx.styles@;
    let mut k: usize = 0;
    while k < nodes.len()
        invariant
            k <= nodes@.len(),
            cx.indentation.level == level,
            cx.indentation.unit@ == unit,
            cx.styles@ == styles,
            level + 1 + nodes_height(nodes@) <= usize::MAX,
            cx.output@ == start + nodes_text(
                nodes@.subrange(0, k as int),
                unit,
                (level + 1) as nat,
                strings_view(styles),
            ),
        decreases nodes.len() - k,
    {
        proof {
            lemma_nodes_height(nodes@, k as int);
        }
        cx.indentation.level = cx.indentation.level + 1;
        nodes[k].render(cx);
        cx.indentation.level = cx.indentation.level - 1;
        k += 1;
        proof {
            let done = nodes@.subrange(0, k as int);
            assert(done.subrange(0, done.len() - 1) =~= nodes@.subrange(0, k - 1));
            assert(done[done.len() - 1] == nodes@[k - 1]);
        }
        assert(cx.output@ =~= start + nodes_text(
            nodes@.subrange(0, k as int),
            unit,
            (level + 1) as nat,
            strings_view(styles),
        ));
    }
    assert(nodes@.subrange(0, nodes@.len() as int) =~= nodes@);
}

/// Writes the style sheets of the context as a `style` element.
fn render_styles(cx: &mut Context)
    requires
        old(cx).indentation.level < usize::MAX,
    ensures
        appended_output(
            *old(cx),
            *final(cx),
            style_text(
                old(cx).indentation.unit@,
                old(cx).indentation.level as nat,
                strings_view(old(cx).styles@),
            ),
        ),
{
    let ghost start = cx.output@;
    let ghost unit = cx.indentation.unit@;
    let ghost level = cx.indentation.level as nat;
    let ghost sheets = strings_view(cx.styles@);
    let ghost sheets_before = cx.styles@;
    push_indent(&mut cx.output, &cx.indentation);
    cx.output.append("<style>\n");
    cx.indentation.level = cx.indentation.level + 1;
    push_char(&mut cx.output, '\n');
    let ghost head = cx.output@;
    let mut k: usize = 0;
    while k < cx.styles.len()
        invariant
            k <= cx.styles@.len(),
            sheets == strings_view(cx.styles@),
            cx.styles@ == sheets_before,
            cx.indentation.level == level + 1,
            cx.indentation.unit@ == unit,
            cx.output@ == head + styles_body(sheets.subrange(0, k as int)),
        decreases cx.styles.len() - k,
    {
        let sheet = trim_str(cx.styles[k].as_str());
        cx.output.append(sheet.as_str());
        push_char(&mut cx.output, '\n');
        push_char(&mut cx.output, '\n');
        k += 1;
        assert(sheets.subrange(0, k as int).drop_last() =~= sheets.subrange(0, k - 1));
        assert(cx.output@ =~= head + styles_body(sheets.subrange(0, k as int)));
    }
    assert(sheets.subrange(0, sheets.len() as int) =~= sheets);
    cx.indentation.level = cx.indentation.level - 1;
    push_indent(&mut cx.output, &cx.indentation);
    cx.output.append("</style>\n");
    assert(cx.output@ =~= start + style_text(unit, level, sheets));
}

impl Node {
    /// Writes the node at the context's depth.
    pub fn render(&self, cx: &mut Context)
        requires
            old(cx).indentation.level + node_height(*self) <= usize::MAX,
        ensures
            appended_output(
                *old(cx),
                *final(cx),
                node_text(
                    *self,
                    old(cx).indentation.unit@,
                    old(cx).indentation.level as nat,
                    strings_view(old(cx).styles@),
                ),
            ),
        decreases *self,
    {
        match self {
            Node::Text(text) => {
                let ghost start = cx.output@;
                push_indent(&mut cx.output, &cx.indentation);
                cx.output.append(text.as_str());
                push_char(&mut cx.output, '\n');
                assert(cx.output@ =~= start + node_text(
                    *self,
                    cx.indentation.unit@,
                    cx.indentation.level as nat,
                    strings_view(cx.styles@),
                ));
            },
            Node::Element(element) => element.render(cx),
            Node::Styles => render_styles(cx),
        }
    }
}

impl GenericHtmlElement {
    /// Writes the element at the context's depth.
    #[verifier::spinoff_prover]
    #[verifier::rlimit(40)]
    pub fn render(&self, cx: &mut Context)
        requires
            old(cx).indentation.level + element_height(*self) <= usize::MAX,
        ensures
            appended_output(
                *old(cx),
                *final(cx),
                element_text(
                    *self,
                    old(cx).indentation.unit@,
                    old(cx).indentation.level as nat,
                    strings_view(old(cx).styles@),
                ),
            ),
        decreases *self,
    {
        let ghost start = cx.output@;
        let ghost unit = cx.indentation.unit@;
        let ghost level = cx.indentation.level as nat;
        let ghost styles = strings_view(cx.styles@);
        push_indent(&mut cx.output, &cx.indentation);
        push_char(&mut cx.output, '<');
        cx.output.append(self.name.as_str());
        push_attributes(&mut cx.output, &self.attributes);
        let ghost open = cx.output@;
        assert(open =~= start + indent_text(unit, level) + seq!['<'] + self.name@ + attributes_text(
            self.attributes@,
        ));
        if self.children.len() == 0 {
            push_char(&mut cx.output, '/');
            push_char(&mut cx.output, '>');
            push_char(&mut cx.output, '\n');
            assert(cx.output@ =~= start + element_text(*self, unit, level, styles));
            return;
        }
        push_char(&mut cx.output, '>');
        push_char(&mut cx.output, '\n');
        let ghost head = cx.output@;
        let ghost kids = nodes_text(self.children@, unit, level + 1, styles);
        let ghost late = nodes_text(self.late_children@, unit, level + 1, styles);
        let mut output_buf = String::new();
        std::mem::swap(&mut cx.output, &mut output_buf);
        render_children(&self.children, cx);
        assert(cx.output@ =~= kids);
        std::mem::swap(&mut cx.output, &mut output_buf);
        assert(cx.output@ == head);
        render_children(&self.late_children, cx);
        assert(cx.output@ == head + late);
        cx.output.append(output_buf.as_str());
        assert(cx.output@ == head + late + kids);
        push_indent(&mut cx.output, &cx.indentation);
        push_char(&mut cx.output, '<');
        push_char(&mut cx.output, '/');
        cx.output.append(self.name.as_str());
        push_char(&mut cx.output, '>');
        push_char(&mut cx.output, '\n');
        assert(cx.output@ =~= start + element_text(*self, unit, level, styles));
    }
}

} // verus!
