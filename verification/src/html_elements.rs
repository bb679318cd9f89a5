//! HTML elements: the content categories and building states of elements,
//! the elements themselves with their attributes and children, and whole
//! documents.
use vstd::prelude::*;
use crate::html_attributes::{
    attrs_view, decimal, is_token, push_decimal, strings_view, Attribute, CiteAttribute, Classes, Span, HtmlAttribute, HtmlValue, ValueView,
};
use crate::html_render::{
    element_height, element_text, node_height, nodes_height, Context, GenericHtmlElement, Node,
};
use crate::text::{join, push_char};
use std::marker::PhantomData;

verus! {

// ===== content categories (https://html.spec.whatwg.org/#flow-content-2) =====

/// Something that can be written out as HTML: it becomes a node of the
/// document tree.
pub trait Renderable: Sized {
    /// Whether `n` is this content as a document node.
    spec fn is_node_of(&self, n: Node) -> bool;

    /// The content as a document node.
    fn into_node(self) -> (r: Node)
        ensures
            self.is_node_of(r),
    ;
}

/// A line of text.
impl Renderable for String {
    open spec fn is_node_of(&self, n: Node) -> bool {
        n matches Node::Text(t) && t@ == self@
    }

    fn into_node(self) -> (r: Node) {
        Node::Text(self)
    }
}

impl FlowContent for String {}

impl PhrasingContent for String {}

/// Whether `e` is the element named `name` with attributes `attrs`, the
/// children `children`, and no late children.
pub open spec fn is_element(
    e: GenericHtmlElement,
    name: Seq<char>,
    attrs: Seq<(Seq<char>, ValueView)>,
    children: Seq<Node>,
) -> bool {
    &&& e.name@ == name
    &&& attrs_view(e.attributes@) == attrs
    &&& e.children@ == children
    &&& e.late_children@.len() == 0
}

/// Whether `after` is `before` with `child` appended as a node.
pub open spec fn appended<C: Renderable>(after: Seq<Node>, before: Seq<Node>, child: C) -> bool {
    &&& after.len() == before.len() + 1
    &&& after.subrange(0, before.len() as int) == before
    &&& child.is_node_of(after[before.len() as int])
}

/// Appends `child` as a node.
fn push_child<C: Renderable>(children: &mut Vec<Node>, child: C)
    ensures
        appended(final(children)@, old(children)@, child),
{
    let ghost c = child;
    let node = child.into_node();
    children.push(node);
    assert(children@.subrange(0, old(children)@.len() as int) =~= old(children)@);
}

pub trait FlowContent: Renderable {}

pub trait SectioningContent: FlowContent {}

pub trait HeadingContent: FlowContent {}

pub trait PhrasingContent: FlowContent {}

pub trait EmbeddedContent: PhrasingContent {}

pub trait InteractiveContent: FlowContent {}

pub trait MetadataContent: Renderable {}

/// Content that is not empty.
pub trait PalpableContent: FlowContent {}

pub trait SelectInnerContent: Renderable {}

pub trait OptgroupInnerContent: Renderable {}

pub trait OptionInnerContent: Renderable {}

// ===== building states =====

/// Whether an element has been given a child yet.
pub trait ChildExistenceState {}

pub struct WithChild;

pub struct WithoutChild;

impl ChildExistenceState for WithChild {}

impl ChildExistenceState for WithoutChild {}

/// What a `div` stands in: a description list, an option, an option group,
/// a select, or flow content in general.
pub trait DivType {}

pub struct DescriptionListDiv;

impl DivType for DescriptionListDiv {}

pub struct OptionDiv;

impl DivType for OptionDiv {}

pub struct OptionGroupDiv;

impl DivType for OptionGroupDiv {}

pub struct SelectDiv;

impl DivType for SelectDiv {}

pub struct GeneralDiv;

impl DivType for GeneralDiv {}

/// What a `figure` holds so far: nothing, content, a caption, or both in
/// either order; the generic state stands for any finished figure.
pub trait FigureState {}

pub struct EmptyState;

pub struct WithContent;

pub struct WithCaption;

pub struct WithCaptionAndContent;

pub struct WithContentAndCaption;

pub struct GenericState;

impl FigureState for EmptyState {}

impl FigureState for WithContent {}

impl FigureState for WithCaption {}

impl FigureState for WithCaptionAndContent {}

impl FigureState for WithContentAndCaption {}

impl FigureState for GenericState {}

/// A state in which a figure is complete: it has content.
pub(crate) trait CorrectFigureState: FigureState {}

impl CorrectFigureState for WithContent {}

impl CorrectFigureState for WithCaptionAndContent {}

impl CorrectFigureState for WithContentAndCaption {}

impl From<WithContent> for GenericState {
    fn from(v: WithContent) -> (r: Self) {
        GenericState
    }
}

impl vstd::std_specs::convert::FromSpecImpl<WithContent> for GenericState {
    open spec fn obeys_from_spec() -> bool {
        true
    }

    open spec fn from_spec(v: WithContent) -> Self {
        GenericState
    }
}

impl From<WithCaptionAndContent> for GenericState {
    fn from(v: WithCaptionAndContent) -> (r: Self) {
        GenericState
    }
}

impl vstd::std_specs::convert::FromSpecImpl<WithCaptionAndContent> for GenericState {
    open spec fn obeys_from_spec() -> bool {
        true
    }

    open spec fn from_spec(v: WithCaptionAndContent) -> Self {
        GenericState
    }
}

impl From<WithContentAndCaption> for GenericState {
    fn from(v: WithContentAndCaption) -> (r: Self) {
        GenericState
    }
}

impl vstd::std_specs::convert::FromSpecImpl<WithContentAndCaption> for GenericState {
    open spec fn obeys_from_spec() -> bool {
        true
    }

    open spec fn from_spec(v: WithContentAndCaption) -> Self {
        GenericState
    }
}

/// What a `table` holds so far; its parts come in the order caption,
/// column groups, header, bodies or rows, footer.
pub trait TableState {}

/// A table state in which the table may be written out.
pub trait CorrectTableState: TableState {}

pub struct Empty;

pub struct WithColumnGroup;

pub struct WithHeader;

pub struct WithBodies;

pub struct WithRows;

pub struct WithFooter;

impl TableState for Empty {}

impl TableState for WithCaption {}

impl TableState for WithColumnGroup {}

impl TableState for WithHeader {}

impl TableState for WithBodies {}

impl TableState for WithRows {}

impl TableState for WithFooter {}

impl TableState for GenericState {}

impl CorrectTableState for WithCaption {}

impl CorrectTableState for WithColumnGroup {}

impl CorrectTableState for WithHeader {}

impl CorrectTableState for WithBodies {}

impl CorrectTableState for WithRows {}

impl CorrectTableState for WithFooter {}

/// What a column group holds so far: nothing, columns, or a span.
pub trait TableColumnsState {}

pub struct WithCol;

pub struct WithSpan;

impl TableColumnsState for Empty {}

impl TableColumnsState for WithCol {}

impl TableColumnsState for WithSpan {}

/// Whether a heading group has its heading yet.
pub struct WithoutHeader;

// ===== list items =====

/// A list item without an explicit ordinal value.
pub struct NoValue;

/// A list item with an explicit ordinal value.
pub struct WithValue(pub i32);

/// Whether a list item carries an ordinal value.
pub trait ListItemValueProp {
    spec fn spec_value(&self) -> Option<i32>;

    fn value(&self) -> (r: Option<i32>)
        ensures
            r == self.spec_value(),
    ;
}

impl ListItemValueProp for NoValue {
    open spec fn spec_value(&self) -> Option<i32> {
        None
    }

    fn value(&self) -> (r: Option<i32>) {
        None
    }
}

impl ListItemValueProp for WithValue {
    open spec fn spec_value(&self) -> Option<i32> {
        Some(self.0)
    }

    fn value(&self) -> (r: Option<i32>) {
        Some(self.0)
    }
}

// ===== elements =====

/// The attributes every element may have: an id and classes. Setting them
/// takes the element and gives it back.
pub trait BuiltinHtmlElement: Sized {
    spec fn spec_classes(&self) -> Classes;

    spec fn spec_id(&self) -> Option<Seq<char>>;

    /// Whether `other` agrees with this element in everything but its
    /// classes and id.
    spec fn same_content(&self, other: &Self) -> bool;

    proof fn lemma_same_content_trans(a: &Self, b: &Self, c: &Self)
        requires
            a.same_content(b),
            b.same_content(c),
        ensures
            a.same_content(c),
    ;

    /// Adds a class, which must be a token the element does not have yet.
    fn class(self, class: &str) -> (r: Self)
        requires
            self.spec_classes().wf(),
            !self.spec_classes().contains(class@),
            is_token(class@),
        ensures
            r.spec_classes().wf(),
            strings_view(r.spec_classes().0@) == strings_view(self.spec_classes().0@).push(
                class@,
            ),
            r.spec_id() == self.spec_id(),
            self.same_content(&r),
    ;

    /// Sets the id, which must be a token; an element has one id at most.
    fn id(self, id: &str) -> (r: Self)
        requires
            self.spec_id() is None,
            is_token(id@),
        ensures
            r.spec_id() == Some(id@),
            r.spec_classes() == self.spec_classes(),
            self.same_content(&r),
    ;

    /// Adds several classes at once; there must be two of them at least (one
    /// class is given with `class`), all distinct tokens the element does not
    /// have yet.
    fn classes(self, names: &[&str]) -> (r: Self)
        requires
            names@.len() >= 2,
            self.spec_classes().wf(),
            forall|i: int| 0 <= i < names@.len() ==> is_token(#[trigger] names@[i]@),
            forall|i: int| 0 <= i < names@.len() ==> !self.spec_classes().contains(#[trigger] names@[i]@),
            forall|i: int, j: int| 0 <= i < j < names@.len() ==> (#[trigger] names@[i])@ != (#[trigger] names@[j])@,
        ensures
            strings_view(r.spec_classes().0@) == strings_view(self.spec_classes().0@) + names@.map_values(
                |c: &str| c@,
            ),
            r.spec_id() == self.spec_id(),
            self.same_content(&r),
    {
        let ghost orig = self;
        let ghost start = strings_view(self.spec_classes().0@);
        let mut element = self;
        let mut k: usize = 0;
        while k < names.len()
            invariant
                k <= names@.len(),
                element.spec_classes().wf(),
                strings_view(element.spec_classes().0@) == start + names@.subrange(0, k as int).map_values(
                    |c: &str| c@,
                ),
                element.spec_id() == orig.spec_id(),
                k == 0 ==> element == orig,
                k > 0 ==> orig.same_content(&element),
                forall|i: int| 0 <= i < names@.len() ==> is_token(#[trigger] names@[i]@),
                forall|i: int| 0 <= i < names@.len() ==> !orig.spec_classes().contains(#[trigger] names@[i]@),
                forall|i: int, j: int| 0 <= i < j < names@.len() ==> (#[trigger] names@[i])@ != (#[trigger] names@[j])@,
                start == strings_view(orig.spec_classes().0@),
            decreases names.len() - k,
        {
            proof {
                let cur = element.spec_classes();
                if cur.contains(names@[k as int]@) {
                    let i = choose|i: int| 0 <= i < cur.0@.len() && (#[trigger] cur.0@[i])@ == names@[k as int]@;
                    let sv = strings_view(cur.0@);
                    assert(sv[i] == names@[k as int]@);
                    let done = names@.subrange(0, k as int).map_values(|c: &str| c@);
                    assert(sv == start + done);
                    if i < start.len() {
                        assert(start[i] == orig.spec_classes().0@[i]@);
                        assert(orig.spec_classes().0@[i]@ == names@[k as int]@);
                    } else {
                        let j = i - start.len();
                        assert(sv.len() == cur.0@.len());
                        assert(done.len() == k);
                        assert(0 <= j < k);
                        assert(sv[i] == done[j]);
                        assert(done[j] == names@[j]@);
                        assert(names@[j]@ != names@[k as int]@);
                    }
                }
            }
            let ghost before = element;
            element = element.class(names[k]);
            proof {
                if k > 0 {
                    Self::lemma_same_content_trans(&orig, &before, &element);
                }
            }
            k += 1;
            assert(names@.subrange(0, k as int).map_values(|c: &str| c@) =~= names@.subrange(
                0,
                k - 1,
            ).map_values(|c: &str| c@).push(names@[k - 1]@));
        }
        assert(names@.subrange(0, names@.len() as int) =~= names@);
        element
    }
}

/// The id attribute then the class attribute, the ones that are set.
pub open spec fn base_attributes(classes: Classes, id: Option<Seq<char>>) -> Seq<(Seq<char>, ValueView)> {
    (match id {
        Some(i) => seq![("id"@, ValueView::Text(i))],
        None => Seq::empty(),
    }) + (if classes.0@.len() > 0 {
        seq![("class"@, ValueView::Text(join(strings_view(classes.0@), seq![' '])))]
    } else {
        Seq::empty()
    })
}

pub open spec fn opt_str(o: Option<String>) -> Option<Seq<char>> {
    match o {
        Some(s) => Some(s@),
        None => None,
    }
}

/// Appends the id and class attributes that are set.
fn push_base_attributes(attrs: &mut Vec<HtmlAttribute>, classes: &Classes, id: &Option<String>)
    ensures
        attrs_view(final(attrs)@) == attrs_view(old(attrs)@) + base_attributes(*classes, opt_str(*id)),
{
    let ghost start = attrs_view(attrs@);
    if let Some(id) = id {
        attrs.push(HtmlAttribute { name: String::from_str("id"), value: HtmlValue::String(id.clone()) });
    }
    let ghost mid = attrs_view(attrs@);
    assert(mid =~= start + (match opt_str(*id) {
        Some(i) => seq![("id"@, ValueView::Text(i))],
        None => Seq::<(Seq<char>, ValueView)>::empty(),
    }));
    if let Some(attr) = classes.render() {
        attrs.push(attr);
    }
    assert(attrs_view(attrs@) =~= start + base_attributes(*classes, opt_str(*id)));
}

/// Unicode white space (the `White_Space` property), which `char::is_whitespace` tests.
pub open spec fn is_unicode_ws(c: char) -> bool {
    ||| ('\t' <= c && c <= '\r')
    ||| c == ' '
    ||| c == '\u{85}'
    ||| c == '\u{a0}'
    ||| c == '\u{1680}'
    ||| ('\u{2000}' <= c && c <= '\u{200a}')
    ||| c == '\u{2028}'
    ||| c == '\u{2029}'
    ||| c == '\u{202f}'
    ||| c == '\u{205f}'
    ||| c == '\u{3000}'
}

fn is_unicode_ws_exec(c: char) -> (r: bool)
    ensures
        r == is_unicode_ws(c),
{
    ('\t' <= c && c <= '\r') || c == ' ' || c == '\u{85}' || c == '\u{a0}' || c == '\u{1680}' || (
    '\u{2000}' <= c && c <= '\u{200a}') || c == '\u{2028}' || c == '\u{2029}' || c == '\u{202f}'
        || c == '\u{205f}' || c == '\u{3000}'
}

/// The first position at or after `i` that does not hold white space.
pub open spec fn trim_start_at(s: Seq<char>, i: int) -> int
    decreases s.len() - i,
{
    if 0 <= i < s.len() && is_unicode_ws(s[i]) {
        trim_start_at(s, i + 1)
    } else {
        i
    }
}

/// The position just past the last character before `j` that is not white space.
pub open spec fn trim_end_at(s: Seq<char>, lo: int, j: int) -> int
    decreases j - lo,
{
    if lo < j && is_unicode_ws(s[j - 1]) {
        trim_end_at(s, lo, j - 1)
    } else {
        j
    }
}

/// `s` without leading and trailing white space, as `str::trim` gives it.
pub open spec fn trim(s: Seq<char>) -> Seq<char> {
    let lo = trim_start_at(s, 0);
    s.subrange(lo, trim_end_at(s, lo, s.len() as int))
}

pub proof fn lemma_trim_start_bound(s: Seq<char>, i: int)
    requires
        0 <= i <= s.len(),
    ensures
        i <= trim_start_at(s, i) <= s.len(),
    decreases s.len() - i,
{
    if i < s.len() && is_unicode_ws(s[i]) {
        lemma_trim_start_bound(s, i + 1);
    }
}

pub proof fn lemma_trim_end_bound(s: Seq<char>, lo: int, j: int)
    requires
        lo <= j,
    ensures
        lo <= trim_end_at(s, lo, j) <= j,
    decreases j - lo,
{
    if lo < j && is_unicode_ws(s[j - 1]) {
        lemma_trim_end_bound(s, lo, j - 1);
    }
}

/// `s` without leading and trailing white space.
pub fn trim_str(s: &str) -> (r: String)
    ensures
        r@ == trim(s@),
{
    let len = s.unicode_len();
    let mut lo: usize = 0;
    while lo < len && is_unicode_ws_exec(s.get_char(lo))
        invariant
            len == s@.len(),
            lo <= len,
            trim_start_at(s@, 0) == trim_start_at(s@, lo as int),
        decreases len - lo,
    {
        lo += 1;
    }
    let mut hi: usize = len;
    while hi > lo && is_unicode_ws_exec(s.get_char(hi - 1))
        invariant
            len == s@.len(),
            lo <= hi <= len,
            trim_start_at(s@, 0) == lo,
            trim_end_at(s@, lo as int, len as int) == trim_end_at(s@, lo as int, hi as int),
        decreases hi - lo,
    {
        hi -= 1;
    }
    String::from_str(s.substring_char(lo, hi))
}

/// Whether `s` holds a space.
pub fn has_space(s: &str) -> (r: bool)
    ensures
        r == s@.contains(' '),
{
    let len = s.unicode_len();
    let mut i: usize = 0;
    while i < len
        invariant
            len == s@.len(),
            i <= len,
            forall|j: int| 0 <= j < i ==> s@[j] != ' ',
        decreases len - i,
    {
        if s.get_char(i) == ' ' {
            assert(s@[i as int] == ' ');
            return true;
        }
        i += 1;
    }
    false
}

/// A hyperlink, `a`: where it points, whether it is a download, and the
/// addresses to notify when it is followed.
pub struct Link {
    pub classes: Classes,
    pub id: Option<String>,
    pub children: Vec<Node>,
    pub href: Option<String>,
    pub download: bool,
    pub ping: Vec<String>,
}

/// A link with nothing set.
pub fn a() -> (r: Link)
    ensures
        r.classes.0@.len() == 0,
        r.id is None,
        r.children@.len() == 0,
        r.href is None,
        !r.download,
        r.ping@.len() == 0,
{
    Link {
        classes: Classes::new_in(),
        id: None,
        children: Vec::new(),
        href: None,
        download: false,
        ping: Vec::new(),
    }
}

impl BuiltinHtmlElement for Link {
    open spec fn spec_classes(&self) -> Classes {
        self.classes
    }

    open spec fn spec_id(&self) -> Option<Seq<char>> {
        opt_str(self.id)
    }

    open spec fn same_content(&self, other: &Self) -> bool {
        &&& self.children == other.children
        &&& self.href == other.href
        &&& self.download == other.download
        &&& self.ping == other.ping
    }

    proof fn lemma_same_content_trans(a: &Self, b: &Self, c: &Self) {
    }

    fn class(self, class: &str) -> (r: Self) {
        let mut this = self;
        this.classes.add(class);
        this
    }

    fn id(self, id: &str) -> (r: Self) {
        let mut this = self;
        this.id = Some(String::from_str(id));
        this
    }
}

/// The values of the `ping` attribute, separated by spaces.
pub open spec fn ping_text(ping: Seq<String>) -> Seq<char> {
    join(strings_view(ping), seq![' '])
}

/// The attributes of a link's start tag: id, class, `href`, `download` and
/// `ping`, the ones that are set.
pub open spec fn link_attributes(l: Link) -> Seq<(Seq<char>, ValueView)> {
    base_attributes(l.classes, opt_str(l.id)) + (match l.href {
        Some(h) => seq![("href"@, ValueView::Text(h@))],
        None => Seq::empty(),
    }) + (if l.download {
        seq![("download"@, ValueView::Bool)]
    } else {
        Seq::empty()
    }) + (if l.ping@.len() > 0 {
        seq![("ping"@, ValueView::Text(ping_text(l.ping@)))]
    } else {
        Seq::empty()
    })
}

impl FlowContent for Link {}

impl PhrasingContent for Link {}

impl Renderable for Link {
    open spec fn is_node_of(&self, n: Node) -> bool {
        n matches Node::Element(e) && is_element(e, "a"@, link_attributes(*self), self.children@)
    }

    fn into_node(self) -> (r: Node) {
        Node::Element(self.into_html_element())
    }
}

impl Link {
    /// Adds a child. The content of a link must hold no interactive content
    /// and no link; this is not checked.
    pub fn child<C: Renderable>(self, child: C) -> (r: Self)
        ensures
            appended(r.children@, self.children@, child),
            r.classes == self.classes,
            r.id == self.id,
            r.href == self.href,
            r.download == self.download,
            r.ping == self.ping,
    {
        let mut this = self;
        push_child(&mut this.children, child);
        this
    }

    /// The link as an `a` element.
    pub fn into_html_element(self) -> (r: GenericHtmlElement)
        ensures
            is_element(r, "a"@, link_attributes(self), self.children@),
    {
        let attributes = self.attributes();
        proof {
            reveal_strlit("a");
        }
        GenericHtmlElement {
            name: String::from_str("a"),
            attributes,
            children: self.children,
            late_children: Vec::new(),
        }
    }

    /// Sets where the link points: `url` without surrounding white space,
    /// which must hold no space; it can be set once.
    pub fn href(self, url: &str) -> (r: Self)
        requires
            self.href is None,
            !trim(url@).contains(' '),
        ensures
            r.href matches Some(h) && h@ == trim(url@),
            r.classes == self.classes,
            r.id == self.id,
            r.children == self.children,
            r.download == self.download,
            r.ping == self.ping,
    {
        let mut this = self;
        let url = trim_str(url);
        this.href = Some(url);
        this
    }

    /// Marks the link as a download; it can be marked once.
    pub fn download(self) -> (r: Self)
        requires
            !self.download,
        ensures
            r.download,
            r.classes == self.classes,
            r.id == self.id,
            r.children == self.children,
            r.href == self.href,
            r.ping == self.ping,
    {
        let mut this = self;
        this.download = true;
        this
    }

    /// Adds an address to notify: `url` without surrounding white space,
    /// which must hold no space and not be there already.
    pub fn ping(self, url: &str) -> (r: Self)
        requires
            !trim(url@).contains(' '),
            forall|i: int| 0 <= i < self.ping@.len() ==> (#[trigger] self.ping@[i])@ != trim(url@),
        ensures
            strings_view(r.ping@) == strings_view(self.ping@).push(trim(url@)),
            r.classes == self.classes,
            r.id == self.id,
            r.children == self.children,
            r.href == self.href,
            r.download == self.download,
    {
        let mut this = self;
        let trimmed = trim_str(url);
        let ghost before = this.ping@;
        this.ping.push(trimmed);
        assert(this.ping@ == before.push(trimmed));
        assert(strings_view(this.ping@) =~= strings_view(before).push(trim(url@)));
        this
    }

    /// The attributes of the link's start tag.
    pub fn attributes(&self) -> (r: Vec<HtmlAttribute>)
        ensures
            attrs_view(r@) == link_attributes(*self),
    {
        let mut attrs: Vec<HtmlAttribute> = Vec::new();
        push_base_attributes(&mut attrs, &self.classes, &self.id);
        let ghost base = attrs_view(attrs@);
        if let Some(href) = &self.href {
            attrs.push(HtmlAttribute { name: String::from_str("href"), value: HtmlValue::String(href.clone()) });
        }
        if self.download {
            attrs.push(HtmlAttribute { name: String::from_str("download"), value: HtmlValue::Bool });
        }
        if self.ping.len() > 0 {
            let mut value = String::new();
            let ghost v = strings_view(self.ping@);
            let mut k: usize = 0;
            while k < self.ping.len()
                invariant
                    k <= self.ping@.len(),
                    v == strings_view(self.ping@),
                    value@ == join(v.subrange(0, k as int), seq![' ']),
                decreases self.ping.len() - k,
            {
                if k > 0 {
                    push_char(&mut value, ' ');
                }
                value.append(self.ping[k].as_str());
                k += 1;
                proof {
                    let w = v.subrange(0, k as int);
                    assert(w.drop_last() =~= v.subrange(0, k - 1));
                    if k == 1 {
                        assert(join(v.subrange(0, 0), seq![' ']) =~= Seq::<char>::empty());
                    }
                    assert(value@ =~= join(w, seq![' ']));
                }
            }
            assert(v.subrange(0, self.ping@.len() as int) =~= v);
            attrs.push(HtmlAttribute { name: String::from_str("ping"), value: HtmlValue::String(value) });
        }
        assert(attrs_view(attrs@) =~= link_attributes(*self));
        attrs
    }
}

/// The kind of marker an ordered list numbers its items with.
#[derive(Clone, Copy)]
pub struct OrderedListMarkerType(pub &'static str);

impl OrderedListMarkerType {
    /// Decimal numbers.
    pub fn decimal() -> (r: Self)
        ensures
            r.0@ == "1"@,
    {
        OrderedListMarkerType("1")
    }

    /// Lowercase latin alphabet.
    pub fn lower_alpha() -> (r: Self)
        ensures
            r.0@ == "a"@,
    {
        OrderedListMarkerType("a")
    }

    /// Uppercase latin alphabet.
    pub fn upper_alpha() -> (r: Self)
        ensures
            r.0@ == "A"@,
    {
        OrderedListMarkerType("A")
    }

    /// Lowercase roman numerals.
    pub fn lower_roman() -> (r: Self)
        ensures
            r.0@ == "i"@,
    {
        OrderedListMarkerType("i")
    }

    /// Uppercase roman numerals.
    pub fn upper_roman() -> (r: Self)
        ensures
            r.0@ == "I"@,
    {
        OrderedListMarkerType("I")
    }
}

/// An ordered list, `ol`: whether it counts down, where it starts, and its
/// kind of marker.
pub struct OrderedList {
    pub classes: Classes,
    pub id: Option<String>,
    pub children: Vec<Node>,
    pub reversed: bool,
    pub starting_value: Option<i32>,
    pub marker_type: Option<OrderedListMarkerType>,
}

/// An ordered list with nothing set.
pub fn ol() -> (r: OrderedList)
    ensures
        r.classes.0@.len() == 0,
        r.id is None,
        r.children@.len() == 0,
        !r.reversed,
        r.starting_value is None,
        r.marker_type is None,
{
    OrderedList {
        classes: Classes::new_in(),
        id: None,
        children: Vec::new(),
        reversed: false,
        starting_value: None,
        marker_type: None,
    }
}

impl BuiltinHtmlElement for OrderedList {
    open spec fn spec_classes(&self) -> Classes {
        self.classes
    }

    open spec fn spec_id(&self) -> Option<Seq<char>> {
        opt_str(self.id)
    }

    open spec fn same_content(&self, other: &Self) -> bool {
        &&& self.children == other.children
        &&& self.reversed == other.reversed
        &&& self.starting_value == other.starting_value
        &&& self.marker_type == other.marker_type
    }

    proof fn lemma_same_content_trans(a: &Self, b: &Self, c: &Self) {
    }

    fn class(self, class: &str) -> (r: Self) {
        let mut this = self;
        this.classes.add(class);
        this
    }

    fn id(self, id: &str) -> (r: Self) {
        let mut this = self;
        this.id = Some(String::from_str(id));
        this
    }
}

/// The attributes of an ordered list's start tag: id, class, `reversed`,
/// `start` and `type`, the ones that are set.
pub open spec fn ordered_list_attributes(l: OrderedList) -> Seq<(Seq<char>, ValueView)> {
    base_attributes(l.classes, opt_str(l.id)) + (if l.reversed {
        seq![("reversed"@, ValueView::Bool)]
    } else {
        Seq::empty()
    }) + (match l.starting_value {
        Some(n) => seq![("start"@, ValueView::Number(n))],
        None => Seq::empty(),
    }) + (match l.marker_type {
        Some(t) => seq![("type"@, ValueView::Text(t.0@))],
        None => Seq::empty(),
    })
}

impl FlowContent for OrderedList {}

impl Renderable for OrderedList {
    open spec fn is_node_of(&self, n: Node) -> bool {
        n matches Node::Element(e) && is_element(
            e,
            "ol"@,
            ordered_list_attributes(*self),
            self.children@,
        )
    }

    fn into_node(self) -> (r: Node) {
        Node::Element(self.into_html_element())
    }
}

impl OrderedList {
    /// Adds an item.
    pub fn child<Value: ListItemValueProp>(self, item: ListItem<Value>) -> (r: Self)
        ensures
            appended(r.children@, self.children@, item),
            r.classes == self.classes,
            r.id == self.id,
            r.reversed == self.reversed,
            r.starting_value == self.starting_value,
            r.marker_type == self.marker_type,
    {
        let mut this = self;
        push_child(&mut this.children, item);
        this
    }

    /// The list as an `ol` element.
    pub fn into_html_element(self) -> (r: GenericHtmlElement)
        ensures
            is_element(r, "ol"@, ordered_list_attributes(self), self.children@),
    {
        let attributes = self.attributes();
        proof {
            reveal_strlit("ol");
        }
        GenericHtmlElement {
            name: String::from_str("ol"),
            attributes,
            children: self.children,
            late_children: Vec::new(),
        }
    }

    /// Makes the list count down (..., 3, 2, 1); this can be done once.
    pub fn reversed(self) -> (r: Self)
        requires
            !self.reversed,
        ensures
            r.reversed,
            r.classes == self.classes,
            r.id == self.id,
            r.children == self.children,
            r.starting_value == self.starting_value,
            r.marker_type == self.marker_type,
    {
        let mut this = self;
        this.reversed = true;
        this
    }

    /// Sets the value the list starts from; this can be done once.
    pub fn start(self, starting_value: i32) -> (r: Self)
        requires
            self.starting_value is None,
        ensures
            r.starting_value == Some(starting_value),
            r.classes == self.classes,
            r.id == self.id,
            r.children == self.children,
            r.reversed == self.reversed,
            r.marker_type == self.marker_type,
    {
        let mut this = self;
        this.starting_value = Some(starting_value);
        this
    }

    /// Sets the kind of marker; this can be done once.
    pub fn marker_type(self, marker_type: OrderedListMarkerType) -> (r: Self)
        requires
            self.marker_type is None,
        ensures
            r.marker_type == Some(marker_type),
            r.classes == self.classes,
            r.id == self.id,
            r.children == self.children,
            r.reversed == self.reversed,
            r.starting_value == self.starting_value,
    {
        let mut this = self;
        this.marker_type = Some(marker_type);
        this
    }

    /// The attributes of the list's start tag.
    pub fn attributes(&self) -> (r: Vec<HtmlAttribute>)
        ensures
            attrs_view(r@) == ordered_list_attributes(*self),
    {
        let mut attrs: Vec<HtmlAttribute> = Vec::new();
        push_base_attributes(&mut attrs, &self.classes, &self.id);
        if self.reversed {
            attrs.push(HtmlAttribute { name: String::from_str("reversed"), value: HtmlValue::Bool });
        }
        if let Some(start) = self.starting_value {
            attrs.push(HtmlAttribute { name: String::from_str("start"), value: HtmlValue::Number(start) });
        }
        if let Some(marker_type) = self.marker_type {
            attrs.push(
                HtmlAttribute {
                    name: String::from_str("type"),
                    value: HtmlValue::String(String::from_str(marker_type.0)),
                },
            );
        }
        assert(attrs_view(attrs@) =~= ordered_list_attributes(*self));
        attrs
    }
}

/// A list item, `li`, with or without an ordinal value.
pub struct ListItem<IsOrdered> {
    pub classes: Classes,
    pub id: Option<String>,
    pub children: Vec<Node>,
    pub value: IsOrdered,
}

/// A list item with the given value kind and nothing else set.
pub fn li<Value: ListItemValueProp>(value: Value) -> (r: ListItem<Value>)
    ensures
        r.classes.0@.len() == 0,
        r.id is None,
        r.children@.len() == 0,
        r.value == value,
{
    ListItem { classes: Classes::new_in(), id: None, children: Vec::new(), value }
}

impl BuiltinHtmlElement for ListItem<WithChild> {
    open spec fn spec_classes(&self) -> Classes {
        self.classes
    }

    open spec fn spec_id(&self) -> Option<Seq<char>> {
        opt_str(self.id)
    }

    open spec fn same_content(&self, other: &Self) -> bool {
        &&& self.children == other.children
        &&& self.value == other.value
    }

    proof fn lemma_same_content_trans(a: &Self, b: &Self, c: &Self) {
    }

    fn class(self, class: &str) -> (r: Self) {
        let mut this = self;
        this.classes.add(class);
        this
    }

    fn id(self, id: &str) -> (r: Self) {
        let mut this = self;
        this.id = Some(String::from_str(id));
        this
    }
}

/// The attributes of a list item's start tag: id, class and `value`, the
/// ones that are set.
pub open spec fn list_item_attributes<IsOrdered: ListItemValueProp>(item: ListItem<IsOrdered>) -> Seq<
    (Seq<char>, ValueView),
> {
    base_attributes(item.classes, opt_str(item.id)) + match item.value.spec_value() {
        Some(n) => seq![("value"@, ValueView::Number(n))],
        None => Seq::empty(),
    }
}

impl<IsOrdered> ListItem<IsOrdered> {
    /// Adds a child.
    pub fn child<C: FlowContent>(self, child: C) -> (r: Self)
        ensures
            appended(r.children@, self.children@, child),
            r.classes == self.classes,
            r.id == self.id,
            r.value == self.value,
    {
        let mut this = self;
        push_child(&mut this.children, child);
        this
    }
}

impl<IsOrdered: ListItemValueProp> Renderable for ListItem<IsOrdered> {
    open spec fn is_node_of(&self, n: Node) -> bool {
        n matches Node::Element(e) && is_element(e, "li"@, list_item_attributes(*self), self.children@)
    }

    fn into_node(self) -> (r: Node) {
        Node::Element(self.into_html_element())
    }
}

impl<IsOrdered: ListItemValueProp> ListItem<IsOrdered> {
    /// The attributes of the item's start tag.
    pub fn attributes(&self) -> (r: Vec<HtmlAttribute>)
        ensures
            attrs_view(r@) == list_item_attributes(*self),
    {
        let mut attrs: Vec<HtmlAttribute> = Vec::new();
        push_base_attributes(&mut attrs, &self.classes, &self.id);
        let ghost base = attrs_view(attrs@);
        if let Some(value) = self.value.value() {
            attrs.push(HtmlAttribute { name: String::from_str("value"), value: HtmlValue::Number(value) });
        }
        assert(attrs_view(attrs@) =~= list_item_attributes(*self));
        attrs
    }

    /// The item as an `li` element.
    pub fn into_html_element(self) -> (r: GenericHtmlElement)
        ensures
            is_element(r, "li"@, list_item_attributes(self), self.children@),
    {
        let attributes = self.attributes();
        proof {
            reveal_strlit("li");
        }
        GenericHtmlElement {
            name: String::from_str("li"),
            attributes,
            children: self.children,
            late_children: Vec::new(),
        }
    }
}

/// The tag name of a heading: `h` and its level.
pub fn heading_name(level: u8) -> (r: String)
    ensures
        r@ == heading_tag(level),
{
    let mut r = String::new();
    push_char(&mut r, 'h');
    push_decimal(&mut r, level as i32);
    r
}

/// The tag name of a heading: `h` and its level in decimal.
pub open spec fn heading_tag(level: u8) -> Seq<char> {
    seq!['h'] + decimal(level as int)
}

/// The id and class attributes of an element's start tag.
fn base_attribute_list(classes: &Classes, id: &Option<String>) -> (r: Vec<HtmlAttribute>)
    ensures
        attrs_view(r@) == base_attributes(*classes, opt_str(*id)),
{
    let mut attrs: Vec<HtmlAttribute> = Vec::new();
    push_base_attributes(&mut attrs, classes, id);
    assert(attrs_view(attrs@) =~= base_attributes(*classes, opt_str(*id)));
    attrs
}

// ----- paragraph -----

/// A paragraph, `p`.
pub struct Paragraph {
    pub classes: Classes,
    pub id: Option<String>,
    pub children: Vec<Node>,
}

/// An empty paragraph.
pub fn p() -> (r: Paragraph)
    ensures
        r.classes.0@.len() == 0,
        r.id is None,
        r.children@.len() == 0,
{
    Paragraph { classes: Classes::new_in(), id: None, children: Vec::new() }
}

impl BuiltinHtmlElement for Paragraph {
    open spec fn spec_classes(&self) -> Classes {
        self.classes
    }

    open spec fn spec_id(&self) -> Option<Seq<char>> {
        opt_str(self.id)
    }

    open spec fn same_content(&self, other: &Self) -> bool {
        self.children == other.children
    }

    proof fn lemma_same_content_trans(a: &Self, b: &Self, c: &Self) {
    }

    fn class(self, class: &str) -> (r: Self) {
        let mut this = self;
        this.classes.add(class);
        this
    }

    fn id(self, id: &str) -> (r: Self) {
        let mut this = self;
        this.id = Some(String::from_str(id));
        this
    }
}

impl FlowContent for Paragraph {}

impl Renderable for Paragraph {
    open spec fn is_node_of(&self, n: Node) -> bool {
        n matches Node::Element(e) && is_element(
            e,
            "p"@,
            base_attributes(self.classes, opt_str(self.id)),
            self.children@,
        )
    }

    fn into_node(self) -> (r: Node) {
        Node::Element(self.into_html_element())
    }
}

impl Paragraph {
    /// Adds phrasing content.
    pub fn child<C: PhrasingContent>(self, child: C) -> (r: Self)
        ensures
            appended(r.children@, self.children@, child),
            r.classes == self.classes,
            r.id == self.id,
    {
        let mut this = self;
        push_child(&mut this.children, child);
        this
    }

    /// The paragraph as a `p` element.
    pub fn into_html_element(self) -> (r: GenericHtmlElement)
        ensures
            is_element(r, "p"@, base_attributes(self.classes, opt_str(self.id)), self.children@),
    {
        let attributes = base_attribute_list(&self.classes, &self.id);
        proof {
            reveal_strlit("p");
        }
        GenericHtmlElement {
            name: String::from_str("p"),
            attributes,
            children: self.children,
            late_children: Vec::new(),
        }
    }
}

// ----- heading -----

/// A heading, `h1` to `h6`; it gets the id and class attributes once it
/// has content.
pub struct Heading<IsWithChild> {
    pub level: u8,
    pub classes: Classes,
    pub id: Option<String>,
    pub children: Vec<Node>,
    pub has_child: PhantomData<IsWithChild>,
}

/// An empty heading of the given level.
pub fn h(level: u8) -> (r: Heading<WithoutChild>)
    requires
        1 <= level <= 6,
    ensures
        r.level == level,
        r.classes.0@.len() == 0,
        r.id is None,
        r.children@.len() == 0,
{
    Heading { level, classes: Classes::new_in(), id: None, children: Vec::new(), has_child: PhantomData }
}

impl BuiltinHtmlElement for Heading<WithChild> {
    open spec fn spec_classes(&self) -> Classes {
        self.classes
    }

    open spec fn spec_id(&self) -> Option<Seq<char>> {
        opt_str(self.id)
    }

    open spec fn same_content(&self, other: &Self) -> bool {
        self.level == other.level && self.children == other.children
    }

    proof fn lemma_same_content_trans(a: &Self, b: &Self, c: &Self) {
    }

    fn class(self, class: &str) -> (r: Self) {
        let mut this = self;
        this.classes.add(class);
        this
    }

    fn id(self, id: &str) -> (r: Self) {
        let mut this = self;
        this.id = Some(String::from_str(id));
        this
    }
}

impl FlowContent for Heading<WithChild> {}

impl HeadingContent for Heading<WithChild> {}

impl PalpableContent for Heading<WithChild> {}

impl Renderable for Heading<WithChild> {
    open spec fn is_node_of(&self, n: Node) -> bool {
        n matches Node::Element(e) && is_element(
            e,
            heading_tag(self.level),
            base_attributes(self.classes, opt_str(self.id)),
            self.children@,
        )
    }

    fn into_node(self) -> (r: Node) {
        Node::Element(self.into_html_element())
    }
}

impl<IsWithChild> Heading<IsWithChild> {
    /// Adds phrasing content.
    pub fn child<C: PhrasingContent>(self, child: C) -> (r: Heading<WithChild>)
        ensures
            appended(r.children@, self.children@, child),
            r.level == self.level,
            r.classes == self.classes,
            r.id == self.id,
    {
        let Heading { level, classes, id, children, has_child: _ } = self;
        let mut children = children;
        push_child(&mut children, child);
        Heading { level, classes, id, children, has_child: PhantomData }
    }
}

impl Heading<WithChild> {
    /// The heading as an `h1` to `h6` element.
    pub fn into_html_element(self) -> (r: GenericHtmlElement)
        ensures
            is_element(
                r,
                heading_tag(self.level),
                base_attributes(self.classes, opt_str(self.id)),
                self.children@,
            ),
    {
        let attributes = base_attribute_list(&self.classes, &self.id);
        GenericHtmlElement {
            name: heading_name(self.level),
            attributes,
            children: self.children,
            late_children: Vec::new(),
        }
    }
}

// ----- div -----

/// A `div`, which stands for nothing but its children.
pub struct Div<Type, HasChild> {
    pub classes: Classes,
    pub id: Option<String>,
    pub children: Vec<Node>,
    pub marker: PhantomData<Type>,
    pub has_child: PhantomData<HasChild>,
}

/// An empty `div` of the given kind.
pub fn div<Type: DivType>() -> (r: Div<Type, WithoutChild>)
    ensures
        r.classes.0@.len() == 0,
        r.id is None,
        r.children@.len() == 0,
{
    Div { classes: Classes::new_in(), id: None, children: Vec::new(), marker: PhantomData, has_child: PhantomData }
}

impl<Type: DivType, HasChild> BuiltinHtmlElement for Div<Type, HasChild> {
    open spec fn spec_classes(&self) -> Classes {
        self.classes
    }

    open spec fn spec_id(&self) -> Option<Seq<char>> {
        opt_str(self.id)
    }

    open spec fn same_content(&self, other: &Self) -> bool {
        self.children == other.children
    }

    proof fn lemma_same_content_trans(a: &Self, b: &Self, c: &Self) {
    }

    fn class(self, class: &str) -> (r: Self) {
        let mut this = self;
        this.classes.add(class);
        this
    }

    fn id(self, id: &str) -> (r: Self) {
        let mut this = self;
        this.id = Some(String::from_str(id));
        this
    }
}

impl FlowContent for Div<GeneralDiv, WithChild> {}

impl<Type: DivType> Renderable for Div<Type, WithChild> {
    open spec fn is_node_of(&self, n: Node) -> bool {
        n matches Node::Element(e) && is_element(
            e,
            "div"@,
            base_attributes(self.classes, opt_str(self.id)),
            self.children@,
        )
    }

    fn into_node(self) -> (r: Node) {
        Node::Element(self.into_html_element())
    }
}

impl<HasChild> Div<GeneralDiv, HasChild> {
    /// Adds flow content.
    pub fn child<C: FlowContent>(self, child: C) -> (r: Div<GeneralDiv, WithChild>)
        ensures
            appended(r.children@, self.children@, child),
            r.classes == self.classes,
            r.id == self.id,
    {
        let Div { classes, id, children, marker, has_child: _ } = self;
        let mut children = children;
        push_child(&mut children, child);
        Div { classes, id, children, marker, has_child: PhantomData }
    }
}

impl<Type: DivType> Div<Type, WithChild> {
    /// The `div` element.
    pub fn into_html_element(self) -> (r: GenericHtmlElement)
        ensures
            is_element(r, "div"@, base_attributes(self.classes, opt_str(self.id)), self.children@),
    {
        let attributes = base_attribute_list(&self.classes, &self.id);
        proof {
            reveal_strlit("div");
        }
        GenericHtmlElement {
            name: String::from_str("div"),
            attributes,
            children: self.children,
            late_children: Vec::new(),
        }
    }
}

// ----- block quotation -----

/// A quotation from another source, `blockquote`, with the address of the
/// source if there is one.
pub struct BlockQuote<HasChild> {
    pub classes: Classes,
    pub id: Option<String>,
    pub cite: Option<String>,
    pub children: Vec<Node>,
    pub has_child: PhantomData<HasChild>,
}

/// An empty block quotation.
pub fn blockquote() -> (r: BlockQuote<WithoutChild>)
    ensures
        r.classes.0@.len() == 0,
        r.id is None,
        r.cite is None,
        r.children@.len() == 0,
{
    BlockQuote { classes: Classes::new_in(), id: None, cite: None, children: Vec::new(), has_child: PhantomData }
}

/// The attributes of a block quotation's start tag: id, `cite` and class,
/// the ones that are set.
pub open spec fn block_quote_attributes<HasChild>(q: BlockQuote<HasChild>) -> Seq<(Seq<char>, ValueView)> {
    (match opt_str(q.id) {
        Some(i) => seq![("id"@, ValueView::Text(i))],
        None => Seq::empty(),
    }) + (match q.cite {
        Some(c) => seq![("cite"@, ValueView::Text(c@))],
        None => Seq::empty(),
    }) + (if q.classes.0@.len() > 0 {
        seq![("class"@, ValueView::Text(join(strings_view(q.classes.0@), seq![' '])))]
    } else {
        Seq::empty()
    })
}

impl BuiltinHtmlElement for BlockQuote<WithChild> {
    open spec fn spec_classes(&self) -> Classes {
        self.classes
    }

    open spec fn spec_id(&self) -> Option<Seq<char>> {
        opt_str(self.id)
    }

    open spec fn same_content(&self, other: &Self) -> bool {
        self.cite == other.cite && self.children == other.children
    }

    proof fn lemma_same_content_trans(a: &Self, b: &Self, c: &Self) {
    }

    fn class(self, class: &str) -> (r: Self) {
        let mut this = self;
        this.classes.add(class);
        this
    }

    fn id(self, id: &str) -> (r: Self) {
        let mut this = self;
        this.id = Some(String::from_str(id));
        this
    }
}

impl FlowContent for BlockQuote<WithChild> {}

impl PalpableContent for BlockQuote<WithChild> {}

impl Renderable for BlockQuote<WithChild> {
    open spec fn is_node_of(&self, n: Node) -> bool {
        n matches Node::Element(e) && is_element(
            e,
            "blockquote"@,
            block_quote_attributes(*self),
            self.children@,
        )
    }

    fn into_node(self) -> (r: Node) {
        Node::Element(self.into_html_element())
    }
}

impl<HasChild> BlockQuote<HasChild> {
    /// Adds flow content.
    pub fn child<C: FlowContent>(self, child: C) -> (r: BlockQuote<WithChild>)
        ensures
            appended(r.children@, self.children@, child),
            r.classes == self.classes,
            r.id == self.id,
            r.cite == self.cite,
    {
        let BlockQuote { classes, id, cite, children, has_child: _ } = self;
        let mut children = children;
        push_child(&mut children, child);
        BlockQuote { classes, id, cite, children, has_child: PhantomData }
    }

    /// Sets the address of the source, which must not be blank; it can be
    /// set once.
    pub fn cite(self, cite: &str) -> (r: Self)
        requires
            self.cite is None,
            trim(cite@).len() > 0,
        ensures
            r.cite matches Some(c) && c@ == cite@,
            r.classes == self.classes,
            r.id == self.id,
            r.children == self.children,
    {
        let mut this = self;
        this.cite = Some(String::from_str(cite));
        this
    }
}

impl BlockQuote<WithChild> {
    /// The quotation as a `blockquote` element.
    pub fn into_html_element(self) -> (r: GenericHtmlElement)
        ensures
            is_element(r, "blockquote"@, block_quote_attributes(self), self.children@),
    {
        let mut attributes: Vec<HtmlAttribute> = Vec::new();
        if let Some(id) = &self.id {
            attributes.push(HtmlAttribute { name: String::from_str("id"), value: HtmlValue::String(id.clone()) });
        }
        if let Some(cite) = &self.cite {
            attributes.push(
                HtmlAttribute { name: String::from_str("cite"), value: HtmlValue::String(cite.clone()) },
            );
        }
        if let Some(attr) = self.classes.render() {
            attributes.push(attr);
        }
        assert(attrs_view(attributes@) =~= block_quote_attributes(self));
        proof {
            reveal_strlit("blockquote");
        }
        GenericHtmlElement {
            name: String::from_str("blockquote"),
            attributes,
            children: self.children,
            late_children: Vec::new(),
        }
    }
}

// ----- figure -----

/// A caption of a figure, `figcaption`.
pub struct FigureCaption {
    pub classes: Classes,
    pub id: Option<String>,
    pub children: Vec<Node>,
}

/// An empty caption.
pub fn figcaption() -> (r: FigureCaption)
    ensures
        r.classes.0@.len() == 0,
        r.id is None,
        r.children@.len() == 0,
{
    FigureCaption { classes: Classes::new_in(), id: None, children: Vec::new() }
}

impl BuiltinHtmlElement for FigureCaption {
    open spec fn spec_classes(&self) -> Classes {
        self.classes
    }

    open spec fn spec_id(&self) -> Option<Seq<char>> {
        opt_str(self.id)
    }

    open spec fn same_content(&self, other: &Self) -> bool {
        self.children == other.children
    }

    proof fn lemma_same_content_trans(a: &Self, b: &Self, c: &Self) {
    }

    fn class(self, class: &str) -> (r: Self) {
        let mut this = self;
        this.classes.add(class);
        this
    }

    fn id(self, id: &str) -> (r: Self) {
        let mut this = self;
        this.id = Some(String::from_str(id));
        this
    }
}

impl Renderable for FigureCaption {
    open spec fn is_node_of(&self, n: Node) -> bool {
        n matches Node::Element(e) && is_element(
            e,
            "figcaption"@,
            base_attributes(self.classes, opt_str(self.id)),
            self.children@,
        )
    }

    fn into_node(self) -> (r: Node) {
        let attributes = base_attribute_list(&self.classes, &self.id);
        proof {
            reveal_strlit("figcaption");
        }
        Node::Element(
            GenericHtmlElement {
                name: String::from_str("figcaption"),
                attributes,
                children: self.children,
                late_children: Vec::new(),
            },
        )
    }
}

impl FigureCaption {
    /// Adds flow content.
    pub fn child<C: FlowContent>(self, child: C) -> (r: Self)
        ensures
            appended(r.children@, self.children@, child),
            r.classes == self.classes,
            r.id == self.id,
    {
        let mut this = self;
        push_child(&mut this.children, child);
        this
    }
}

/// Self-contained content, `figure`, with an optional caption before or
/// after it; the state records what it holds so far.
pub struct Figure<State> {
    pub classes: Classes,
    pub id: Option<String>,
    pub children: Vec<Node>,
    pub marker: PhantomData<State>,
}

/// An empty figure.
pub fn figure() -> (r: Figure<EmptyState>)
    ensures
        r.classes.0@.len() == 0,
        r.id is None,
        r.children@.len() == 0,
{
    Figure { classes: Classes::new_in(), id: None, children: Vec::new(), marker: PhantomData }
}

impl<State> BuiltinHtmlElement for Figure<State> {
    open spec fn spec_classes(&self) -> Classes {
        self.classes
    }

    open spec fn spec_id(&self) -> Option<Seq<char>> {
        opt_str(self.id)
    }

    open spec fn same_content(&self, other: &Self) -> bool {
        self.children == other.children
    }

    proof fn lemma_same_content_trans(a: &Self, b: &Self, c: &Self) {
    }

    fn class(self, class: &str) -> (r: Self) {
        let mut this = self;
        this.classes.add(class);
        this
    }

    fn id(self, id: &str) -> (r: Self) {
        let mut this = self;
        this.id = Some(String::from_str(id));
        this
    }
}

impl<State> Figure<State> {
    /// The same figure in another state.
    fn change_state<NewState>(self) -> (r: Figure<NewState>)
        ensures
            r.classes == self.classes,
            r.id == self.id,
            r.children == self.children,
    {
        let Figure { classes, id, children, marker: _ } = self;
        Figure { classes, id, children, marker: PhantomData }
    }

    /// Appends a child, whatever the state.
    fn push<C: Renderable>(self, child: C) -> (r: Self)
        ensures
            appended(r.children@, self.children@, child),
            r.classes == self.classes,
            r.id == self.id,
    {
        let mut this = self;
        push_child(&mut this.children, child);
        this
    }
}

impl Figure<EmptyState> {
    /// Adds the first content.
    pub fn child<C: FlowContent>(self, child: C) -> (r: Figure<WithContent>)
        ensures
            appended(r.children@, self.children@, child),
            r.classes == self.classes,
            r.id == self.id,
    {
        self.push(child).change_state()
    }

    /// Adds the caption first.
    pub fn caption(self, caption: FigureCaption) -> (r: Figure<WithCaption>)
        ensures
            appended(r.children@, self.children@, caption),
            r.classes == self.classes,
            r.id == self.id,
    {
        self.push(caption).change_state()
    }
}

impl Figure<WithContent> {
    /// Adds more content.
    pub fn child<C: FlowContent>(self, child: C) -> (r: Figure<WithContent>)
        ensures
            appended(r.children@, self.children@, child),
            r.classes == self.classes,
            r.id == self.id,
    {
        self.push(child)
    }

    /// Adds the caption after the content.
    pub fn caption(self, caption: FigureCaption) -> (r: Figure<WithContentAndCaption>)
        ensures
            appended(r.children@, self.children@, caption),
            r.classes == self.classes,
            r.id == self.id,
    {
        self.push(caption).change_state()
    }
}

impl Figure<WithCaption> {
    /// Adds the first content, after the caption.
    pub fn child<C: FlowContent>(self, child: C) -> (r: Figure<WithCaptionAndContent>)
        ensures
            appended(r.children@, self.children@, child),
            r.classes == self.classes,
            r.id == self.id,
    {
        self.push(child).change_state()
    }
}

impl Figure<WithCaptionAndContent> {
    /// Adds more content.
    pub fn child<C: FlowContent>(self, child: C) -> (r: Figure<WithCaptionAndContent>)
        ensures
            appended(r.children@, self.children@, child),
            r.classes == self.classes,
            r.id == self.id,
    {
        self.push(child)
    }
}

impl<State: CorrectFigureState> FlowContent for Figure<State> {}

impl<State: CorrectFigureState> Renderable for Figure<State> {
    open spec fn is_node_of(&self, n: Node) -> bool {
        n matches Node::Element(e) && is_element(
            e,
            "figure"@,
            base_attributes(self.classes, opt_str(self.id)),
            self.children@,
        )
    }

    fn into_node(self) -> (r: Node) {
        let attributes = base_attribute_list(&self.classes, &self.id);
        proof {
            reveal_strlit("figure");
        }
        Node::Element(
            GenericHtmlElement {
                name: String::from_str("figure"),
                attributes,
                children: self.children,
                late_children: Vec::new(),
            },
        )
    }
}

// ----- quotation -----

/// A phrase quoted from another source, `q`.
pub struct Quote<HasChild> {
    pub classes: Classes,
    pub id: Option<String>,
    pub children: Vec<Node>,
    pub cite: CiteAttribute,
    pub has_child: PhantomData<HasChild>,
}

/// An empty quotation.
pub fn q() -> (r: Quote<WithoutChild>)
    ensures
        r.classes.0@.len() == 0,
        r.id is None,
        r.children@.len() == 0,
        r.cite.source_address is None,
{
    Quote {
        classes: Classes::new_in(),
        id: None,
        children: Vec::new(),
        cite: CiteAttribute::new_in(),
        has_child: PhantomData,
    }
}

/// The attributes of a quotation's start tag: id, `cite` and class, the
/// ones that are set.
pub open spec fn quote_attributes<HasChild>(q: Quote<HasChild>) -> Seq<(Seq<char>, ValueView)> {
    (match opt_str(q.id) {
        Some(i) => seq![("id"@, ValueView::Text(i))],
        None => Seq::empty(),
    }) + (match q.cite.source_address {
        Some(c) => seq![("cite"@, ValueView::Text(c@))],
        None => Seq::empty(),
    }) + (if q.classes.0@.len() > 0 {
        seq![("class"@, ValueView::Text(join(strings_view(q.classes.0@), seq![' '])))]
    } else {
        Seq::empty()
    })
}

impl BuiltinHtmlElement for Quote<WithChild> {
    open spec fn spec_classes(&self) -> Classes {
        self.classes
    }

    open spec fn spec_id(&self) -> Option<Seq<char>> {
        opt_str(self.id)
    }

    open spec fn same_content(&self, other: &Self) -> bool {
        self.cite == other.cite && self.children == other.children
    }

    proof fn lemma_same_content_trans(a: &Self, b: &Self, c: &Self) {
    }

    fn class(self, class: &str) -> (r: Self) {
        let mut this = self;
        this.classes.add(class);
        this
    }

    fn id(self, id: &str) -> (r: Self) {
        let mut this = self;
        this.id = Some(String::from_str(id));
        this
    }
}

impl FlowContent for Quote<WithChild> {}

impl PhrasingContent for Quote<WithChild> {}

impl PalpableContent for Quote<WithChild> {}

impl Renderable for Quote<WithChild> {
    open spec fn is_node_of(&self, n: Node) -> bool {
        n matches Node::Element(e) && is_element(e, "q"@, quote_attributes(*self), self.children@)
    }

    fn into_node(self) -> (r: Node) {
        let mut attributes: Vec<HtmlAttribute> = Vec::new();
        if let Some(id) = &self.id {
            attributes.push(HtmlAttribute { name: String::from_str("id"), value: HtmlValue::String(id.clone()) });
        }
        if let Some(attr) = self.cite.render() {
            attributes.push(attr);
        }
        if let Some(attr) = self.classes.render() {
            attributes.push(attr);
        }
        assert(attrs_view(attributes@) =~= quote_attributes(self));
        proof {
            reveal_strlit("q");
        }
        Node::Element(
            GenericHtmlElement {
                name: String::from_str("q"),
                attributes,
                children: self.children,
                late_children: Vec::new(),
            },
        )
    }
}

impl<HasChild> Quote<HasChild> {
    /// Adds phrasing content.
    pub fn child<C: PhrasingContent>(self, child: C) -> (r: Quote<WithChild>)
        ensures
            appended(r.children@, self.children@, child),
            r.classes == self.classes,
            r.id == self.id,
            r.cite == self.cite,
    {
        let Quote { classes, id, children, cite, has_child: _ } = self;
        let mut children = children;
        push_child(&mut children, child);
        Quote { classes, id, children, cite, has_child: PhantomData }
    }

    /// Sets the address of the source; it can be set once.
    pub fn cite(self, source: &str) -> (r: Self)
        requires
            self.cite.source_address is None,
        ensures
            r.cite.source_address matches Some(c) && c@ == source@,
            r.classes == self.classes,
            r.id == self.id,
            r.children == self.children,
    {
        let mut this = self;
        this.cite.source_address = Some(String::from_str(source));
        this
    }
}

// ----- aside -----

/// Content aside from the content around it, `aside`, such as a sidebar.
pub struct Aside<HasChild> {
    pub classes: Classes,
    pub id: Option<String>,
    pub children: Vec<Node>,
    pub has_child: PhantomData<HasChild>,
}

/// An empty `aside`.
pub fn aside() -> (r: Aside<WithoutChild>)
    ensures
        r.classes.0@.len() == 0,
        r.id is None,
        r.children@.len() == 0,
{
    Aside { classes: Classes::new_in(), id: None, children: Vec::new(), has_child: PhantomData }
}

impl BuiltinHtmlElement for Aside<WithChild> {
    open spec fn spec_classes(&self) -> Classes {
        self.classes
    }

    open spec fn spec_id(&self) -> Option<Seq<char>> {
        opt_str(self.id)
    }

    open spec fn same_content(&self, other: &Self) -> bool {
        self.children == other.children
    }

    proof fn lemma_same_content_trans(a: &Self, b: &Self, c: &Self) {
    }

    fn class(self, class: &str) -> (r: Self) {
        let mut this = self;
        this.classes.add(class);
        this
    }

    fn id(self, id: &str) -> (r: Self) {
        let mut this = self;
        this.id = Some(String::from_str(id));
        this
    }
}

impl FlowContent for Aside<WithChild> {}

impl SectioningContent for Aside<WithChild> {}

impl PalpableContent for Aside<WithChild> {}

impl Renderable for Aside<WithChild> {
    open spec fn is_node_of(&self, n: Node) -> bool {
        n matches Node::Element(e) && is_element(
            e,
            "aside"@,
            base_attributes(self.classes, opt_str(self.id)),
            self.children@,
        )
    }

    fn into_node(self) -> (r: Node) {
        Node::Element(self.into_html_element())
    }
}

impl<HasChild> Aside<HasChild> {
    /// Adds flow content.
    pub fn child<C: FlowContent>(self, child: C) -> (r: Aside<WithChild>)
        ensures
            appended(r.children@, self.children@, child),
            r.classes == self.classes,
            r.id == self.id,
    {
        let Aside { classes, id, children, has_child: _ } = self;
        let mut children = children;
        push_child(&mut children, child);
        Aside { classes, id, children, has_child: PhantomData }
    }
}

impl Aside<WithChild> {
    /// The `aside` element.
    pub fn into_html_element(self) -> (r: GenericHtmlElement)
        ensures
            is_element(r, "aside"@, base_attributes(self.classes, opt_str(self.id)), self.children@),
    {
        let attributes = base_attribute_list(&self.classes, &self.id);
        proof {
            reveal_strlit("aside");
        }
        GenericHtmlElement {
            name: String::from_str("aside"),
            attributes,
            children: self.children,
            late_children: Vec::new(),
        }
    }
}

// ----- header -----

/// Introductory or navigational aids, `header`.
pub struct Header<HasChild> {
    pub classes: Classes,
    pub id: Option<String>,
    pub children: Vec<Node>,
    pub has_child: PhantomData<HasChild>,
}

/// An empty `header`.
pub fn header() -> (r: Header<WithoutChild>)
    ensures
        r.classes.0@.len() == 0,
        r.id is None,
        r.children@.len() == 0,
{
    Header { classes: Classes::new_in(), id: None, children: Vec::new(), has_child: PhantomData }
}

impl BuiltinHtmlElement for Header<WithChild> {
    open spec fn spec_classes(&self) -> Classes {
        self.classes
    }

    open spec fn spec_id(&self) -> Option<Seq<char>> {
        opt_str(self.id)
    }

    open spec fn same_content(&self, other: &Self) -> bool {
        self.children == other.children
    }

    proof fn lemma_same_content_trans(a: &Self, b: &Self, c: &Self) {
    }

    fn class(self, class: &str) -> (r: Self) {
        let mut this = self;
        this.classes.add(class);
        this
    }

    fn id(self, id: &str) -> (r: Self) {
        let mut this = self;
        this.id = Some(String::from_str(id));
        this
    }
}

impl FlowContent for Header<WithChild> {}

impl PalpableContent for Header<WithChild> {}

impl Renderable for Header<WithChild> {
    open spec fn is_node_of(&self, n: Node) -> bool {
        n matches Node::Element(e) && is_element(
            e,
            "header"@,
            base_attributes(self.classes, opt_str(self.id)),
            self.children@,
        )
    }

    fn into_node(self) -> (r: Node) {
        Node::Element(self.into_html_element())
    }
}

impl<HasChild> Header<HasChild> {
    /// Adds flow content. A header holds no header and no footer; this is not checked.
    pub fn child<C: FlowContent>(self, child: C) -> (r: Header<WithChild>)
        ensures
            appended(r.children@, self.children@, child),
            r.classes == self.classes,
            r.id == self.id,
    {
        let Header { classes, id, children, has_child: _ } = self;
        let mut children = children;
        push_child(&mut children, child);
        Header { classes, id, children, has_child: PhantomData }
    }
}

impl Header<WithChild> {
    /// The `header` element.
    pub fn into_html_element(self) -> (r: GenericHtmlElement)
        ensures
            is_element(r, "header"@, base_attributes(self.classes, opt_str(self.id)), self.children@),
    {
        let attributes = base_attribute_list(&self.classes, &self.id);
        proof {
            reveal_strlit("header");
        }
        GenericHtmlElement {
            name: String::from_str("header"),
            attributes,
            children: self.children,
            late_children: Vec::new(),
        }
    }
}

// ----- address -----

/// Contact information for the nearest article or the body, `address`.
pub struct Address<HasChild> {
    pub classes: Classes,
    pub id: Option<String>,
    pub children: Vec<Node>,
    pub has_child: PhantomData<HasChild>,
}

/// An empty `address`.
pub fn address() -> (r: Address<WithoutChild>)
    ensures
        r.classes.0@.len() == 0,
        r.id is None,
        r.children@.len() == 0,
{
    Address { classes: Classes::new_in(), id: None, children: Vec::new(), has_child: PhantomData }
}

impl BuiltinHtmlElement for Address<WithChild> {
    open spec fn spec_classes(&self) -> Classes {
        self.classes
    }

    open spec fn spec_id(&self) -> Option<Seq<char>> {
        opt_str(self.id)
    }

    open spec fn same_content(&self, other: &Self) -> bool {
        self.children == other.children
    }

    proof fn lemma_same_content_trans(a: &Self, b: &Self, c: &Self) {
    }

    fn class(self, class: &str) -> (r: Self) {
        let mut this = self;
        this.classes.add(class);
        this
    }

    fn id(self, id: &str) -> (r: Self) {
        let mut this = self;
        this.id = Some(String::from_str(id));
        this
    }
}

impl FlowContent for Address<WithChild> {}

impl PalpableContent for Address<WithChild> {}

impl Renderable for Address<WithChild> {
    open spec fn is_node_of(&self, n: Node) -> bool {
        n matches Node::Element(e) && is_element(
            e,
            "address"@,
            base_attributes(self.classes, opt_str(self.id)),
            self.children@,
        )
    }

    fn into_node(self) -> (r: Node) {
        Node::Element(self.into_html_element())
    }
}

impl<HasChild> Address<HasChild> {
    /// Adds flow content, which must be contact information only; this is not checked.
    pub fn child<C: FlowContent>(self, child: C) -> (r: Address<WithChild>)
        ensures
            appended(r.children@, self.children@, child),
            r.classes == self.classes,
            r.id == self.id,
    {
        let Address { classes, id, children, has_child: _ } = self;
        let mut children = children;
        push_child(&mut children, child);
        Address { classes, id, children, has_child: PhantomData }
    }
}

impl Address<WithChild> {
    /// The `address` element.
    pub fn into_html_element(self) -> (r: GenericHtmlElement)
        ensures
            is_element(r, "address"@, base_attributes(self.classes, opt_str(self.id)), self.children@),
    {
        let attributes = base_attribute_list(&self.classes, &self.id);
        proof {
            reveal_strlit("address");
        }
        GenericHtmlElement {
            name: String::from_str("address"),
            attributes,
            children: self.children,
            late_children: Vec::new(),
        }
    }
}

// ----- hr -----

/// A paragraph-level thematic break, `hr`.
pub struct ThematicBreak {
    pub classes: Classes,
    pub id: Option<String>,
}

/// A thematic break.
pub fn hr() -> (r: ThematicBreak)
    ensures
        r.classes.0@.len() == 0,
        r.id is None,
{
    ThematicBreak { classes: Classes::new_in(), id: None }
}

impl BuiltinHtmlElement for ThematicBreak {
    open spec fn spec_classes(&self) -> Classes {
        self.classes
    }

    open spec fn spec_id(&self) -> Option<Seq<char>> {
        opt_str(self.id)
    }

    open spec fn same_content(&self, other: &Self) -> bool {
        true
    }

    proof fn lemma_same_content_trans(a: &Self, b: &Self, c: &Self) {
    }

    fn class(self, class: &str) -> (r: Self) {
        let mut this = self;
        this.classes.add(class);
        this
    }

    fn id(self, id: &str) -> (r: Self) {
        let mut this = self;
        this.id = Some(String::from_str(id));
        this
    }
}

impl FlowContent for ThematicBreak {}

impl Renderable for ThematicBreak {
    open spec fn is_node_of(&self, n: Node) -> bool {
        n matches Node::Element(e) && is_element(
            e,
            "hr"@,
            base_attributes(self.classes, opt_str(self.id)),
            Seq::empty(),
        )
    }

    fn into_node(self) -> (r: Node) {
        Node::Element(self.into_html_element())
    }
}

impl ThematicBreak {
    /// The `hr` element, which has no children.
    pub fn into_html_element(self) -> (r: GenericHtmlElement)
        ensures
            is_element(r, "hr"@, base_attributes(self.classes, opt_str(self.id)), Seq::empty()),
    {
        let attributes = base_attribute_list(&self.classes, &self.id);
        proof {
            reveal_strlit("hr");
        }
        GenericHtmlElement {
            name: String::from_str("hr"),
            attributes,
            children: Vec::new(),
            late_children: Vec::new(),
        }
    }
}

// ----- body -----

/// The content of a document, `body`. Its start tag carries its classes;
/// an id set on it is not written.
pub struct Body {
    pub classes: Classes,
    pub id: Option<String>,
    pub children: Vec<Node>,
}

/// An empty body.
pub fn body() -> (r: Body)
    ensures
        r.classes.0@.len() == 0,
        r.id is None,
        r.children@.len() == 0,
{
    Body { classes: Classes::new_in(), id: None, children: Vec::new() }
}

/// The attributes of a body's start tag: its class attribute, if it has classes.
pub open spec fn body_attributes(b: Body) -> Seq<(Seq<char>, ValueView)> {
    base_attributes(b.classes, None)
}

impl BuiltinHtmlElement for Body {
    open spec fn spec_classes(&self) -> Classes {
        self.classes
    }

    open spec fn spec_id(&self) -> Option<Seq<char>> {
        opt_str(self.id)
    }

    open spec fn same_content(&self, other: &Self) -> bool {
        self.children == other.children
    }

    proof fn lemma_same_content_trans(a: &Self, b: &Self, c: &Self) {
    }

    fn class(self, class: &str) -> (r: Self) {
        let mut this = self;
        this.classes.add(class);
        this
    }

    fn id(self, id: &str) -> (r: Self) {
        let mut this = self;
        this.id = Some(String::from_str(id));
        this
    }
}

impl Renderable for Body {
    open spec fn is_node_of(&self, n: Node) -> bool {
        n matches Node::Element(e) && is_element(
            e,
            "body"@,
            body_attributes(*self),
            self.children@,
        )
    }

    fn into_node(self) -> (r: Node) {
        Node::Element(self.into_html_element())
    }
}

impl Body {
    /// Adds flow content.
    pub fn child<C: FlowContent>(self, child: C) -> (r: Self)
        ensures
            appended(r.children@, self.children@, child),
            r.classes == self.classes,
            r.id == self.id,
    {
        let mut this = self;
        push_child(&mut this.children, child);
        this
    }

    /// The `body` element.
    pub fn into_html_element(self) -> (r: GenericHtmlElement)
        ensures
            is_element(r, "body"@, body_attributes(self), self.children@),
    {
        let attributes = base_attribute_list(&self.classes, &None);
        proof {
            reveal_strlit("body");
        }
        GenericHtmlElement {
            name: String::from_str("body"),
            attributes,
            children: self.children,
            late_children: Vec::new(),
        }
    }
}

// ----- hgroup -----

/// A heading with related paragraphs (subheading, tagline), `hgroup`.
pub struct HeadingGroup<IsWithHeading> {
    pub classes: Classes,
    pub id: Option<String>,
    pub children: Vec<Node>,
    pub has_heading: PhantomData<IsWithHeading>,
}

/// An empty heading group.
pub fn hgroup() -> (r: HeadingGroup<WithoutHeader>)
    ensures
        r.classes.0@.len() == 0,
        r.id is None,
        r.children@.len() == 0,
{
    HeadingGroup { classes: Classes::new_in(), id: None, children: Vec::new(), has_heading: PhantomData }
}

impl BuiltinHtmlElement for HeadingGroup<WithHeader> {
    open spec fn spec_classes(&self) -> Classes {
        self.classes
    }

    open spec fn spec_id(&self) -> Option<Seq<char>> {
        opt_str(self.id)
    }

    open spec fn same_content(&self, other: &Self) -> bool {
        self.children == other.children
    }

    proof fn lemma_same_content_trans(a: &Self, b: &Self, c: &Self) {
    }

    fn class(self, class: &str) -> (r: Self) {
        let mut this = self;
        this.classes.add(class);
        this
    }

    fn id(self, id: &str) -> (r: Self) {
        let mut this = self;
        this.id = Some(String::from_str(id));
        this
    }
}

impl HeadingContent for HeadingGroup<WithHeader> {}

impl FlowContent for HeadingGroup<WithHeader> {}

impl PalpableContent for HeadingGroup<WithHeader> {}

impl Renderable for HeadingGroup<WithHeader> {
    open spec fn is_node_of(&self, n: Node) -> bool {
        n matches Node::Element(e) && is_element(
            e,
            "hgroup"@,
            base_attributes(self.classes, opt_str(self.id)),
            self.children@,
        )
    }

    fn into_node(self) -> (r: Node) {
        Node::Element(self.into_html_element())
    }
}

impl<IsWithHeading> HeadingGroup<IsWithHeading> {
    /// Adds a paragraph.
    pub fn p(self, child: Paragraph) -> (r: Self)
        ensures
            appended(r.children@, self.children@, child),
            r.classes == self.classes,
            r.id == self.id,
    {
        let mut this = self;
        push_child(&mut this.children, child);
        this
    }
}

impl HeadingGroup<WithoutHeader> {
    /// Adds the heading.
    pub fn heading(self, child: Heading<WithChild>) -> (r: HeadingGroup<WithHeader>)
        ensures
            appended(r.children@, self.children@, child),
            r.classes == self.classes,
            r.id == self.id,
    {
        let HeadingGroup { classes, id, children, has_heading: _ } = self;
        let mut children = children;
        push_child(&mut children, child);
        HeadingGroup { classes, id, children, has_heading: PhantomData }
    }
}

impl HeadingGroup<WithHeader> {
    /// The `hgroup` element.
    pub fn into_html_element(self) -> (r: GenericHtmlElement)
        ensures
            is_element(r, "hgroup"@, base_attributes(self.classes, opt_str(self.id)), self.children@),
    {
        let attributes = base_attribute_list(&self.classes, &self.id);
        proof {
            reveal_strlit("hgroup");
        }
        GenericHtmlElement {
            name: String::from_str("hgroup"),
            attributes,
            children: self.children,
            late_children: Vec::new(),
        }
    }
}

// ----- document -----

/// The head of a document, `head`: it lists the style sheets of the
/// context.
pub struct Head;

impl Head {
    /// The `head` element, whose one child is the context's style sheets.
    pub fn into_html_element(self) -> (r: GenericHtmlElement)
        ensures
            is_element(r, "head"@, Seq::empty(), seq![Node::Styles]),
    {
        let mut children: Vec<Node> = Vec::new();
        children.push(Node::Styles);
        proof {
            reveal_strlit("head");
        }
        let r = GenericHtmlElement {
            name: String::from_str("head"),
            attributes: Vec::new(),
            children,
            late_children: Vec::new(),
        };
        assert(attrs_view(r.attributes@) =~= Seq::empty());
        assert(r.children@ =~= seq![Node::Styles]);
        r
    }
}

/// A whole document, `html`: its head and, once it is set, its body.
pub struct Html {
    pub head: Head,
    pub body: Option<Body>,
}

/// A document without a body yet.
pub fn html() -> (r: Html)
    ensures
        r.body is None,
{
    Html { head: Head, body: None }
}

/// `e` is the `html` element of `doc`: no attributes, the body as its
/// child, and the head as a late child, so that the head is written first
/// although it is produced after the body.
pub open spec fn is_document_element(e: GenericHtmlElement, doc: Html) -> bool {
    &&& e.name@ == "html"@
    &&& e.attributes@.len() == 0
    &&& e.children@.len() == 1
    &&& (doc.body matches Some(b) && b.is_node_of(e.children@[0]))
    &&& e.late_children@.len() == 1
    &&& (e.late_children@[0] matches Node::Element(h) && is_element(h, "head"@, Seq::empty(), seq![Node::Styles]))
}

impl Html {
    /// Sets the body; it can be set once.
    pub fn body(&mut self, body: Body)
        requires
            old(self).body is None,
        ensures
            final(self).body == Some(body),
    {
        self.body = Some(body);
    }

    /// The `html` element; the body must be set.
    pub fn into_html_element(self) -> (r: GenericHtmlElement)
        requires
            self.body is Some,
        ensures
            is_document_element(r, self),
            element_height(r) <= nodes_height(self.body.unwrap().children@) + 3,
    {
        let ghost doc = self;
        let Html { head, body } = self;
        let body = body.unwrap();
        let ghost b = body;
        let body_element = body.into_html_element();
        let head_element = head.into_html_element();
        let mut children: Vec<Node> = Vec::new();
        children.push(Node::Element(body_element));
        let mut late_children: Vec<Node> = Vec::new();
        late_children.push(Node::Element(head_element));
        proof {
            reveal_strlit("html");
        }
        let r = GenericHtmlElement {
            name: String::from_str("html"),
            attributes: Vec::new(),
            children,
            late_children,
        };
        proof {
            assert(r.children@[0] == Node::Element(body_element));
            assert(r.children@.subrange(0, 0) =~= Seq::<Node>::empty());
            assert(r.late_children@.subrange(0, 0) =~= Seq::<Node>::empty());
            assert(head_element.children@.subrange(0, 0) =~= Seq::<Node>::empty());
            assert(body_element.late_children@ =~= Seq::<Node>::empty());
            assert(head_element.children@[0] == Node::Styles);
            assert(head_element.children@.len() == 1);
            assert(node_height(Node::Styles) == 1);
            assert(nodes_height(head_element.children@.subrange(0, 0)) == 0);
            assert(nodes_height(head_element.children@) == 1);
            assert(element_height(head_element) == 2);
            assert(r.late_children@[0] == Node::Element(head_element));
            assert(node_height(Node::Element(head_element)) == element_height(head_element));
            assert(node_height(Node::Element(body_element)) == element_height(body_element));
            assert(nodes_height(r.children@.subrange(0, 0)) == 0);
            assert(nodes_height(r.late_children@.subrange(0, 0)) == 0);
            assert(nodes_height(r.late_children@) == 2);
            assert(element_height(body_element) == nodes_height(b.children@) + 1);
            assert(nodes_height(r.children@) == nodes_height(b.children@) + 1);
        }
        r
    }

    /// Writes the document: the doctype, then the `html` element. Nothing
    /// may have been written to the context before, and the body must be
    /// set.
    pub fn render(self, cx: &mut Context)
        requires
            old(cx).output@.len() == 0,
            self.body is Some,
            old(cx).indentation.level + nodes_height(self.body.unwrap().children@) + 3 <= usize::MAX,
        ensures
            exists|e: GenericHtmlElement|
                #[trigger] is_document_element(e, self) && final(cx).output@ == "<!DOCTYPE html>"@
                    + element_text(
                    e,
                    old(cx).indentation.unit@,
                    old(cx).indentation.level as nat,
                    strings_view(old(cx).styles@),
                ),
            final(cx).indentation.level == old(cx).indentation.level,
            final(cx).styles@ == old(cx).styles@,
    {
        let ghost doc = self;
        cx.output.append("<!DOCTYPE html>");
        let element = self.into_html_element();
        element.render(cx);
        assert(is_document_element(element, doc));
    }
}

/// A whole page around `body`: the doctype, then the `html` element whose
/// head lists the one style sheet `global_styles`, each level of depth
/// indented by `indentation_unit`.
pub fn render_page(body: Body, global_styles: String, indentation_unit: String) -> (r: String)
    requires
        nodes_height(body.children@) + 3 <= usize::MAX,
    ensures
        exists|e: GenericHtmlElement|
            #[trigger] is_document_element(e, Html { head: Head, body: Some(body) }) && r@ == "<!DOCTYPE html>"@
                + element_text(e, indentation_unit@, 0, seq![global_styles@]),
{
    let ghost doc = Html { head: Head, body: Some(body) };
    let mut document = html();
    document.body(body);
    assert(document == doc);
    let ghost unit = indentation_unit@;
    let mut cx = Context::new(indentation_unit);
    let ghost sheet = global_styles@;
    cx.styles.push(global_styles);
    assert(strings_view(cx.styles@) =~= seq![sheet]);
    document.render(&mut cx);
    cx.output
}

// ----- code -----

/// A fragment of computer code, `code`.
pub struct Code<HasChild> {
    pub classes: Classes,
    pub id: Option<String>,
    pub children: Vec<Node>,
    pub has_child: PhantomData<HasChild>,
}

/// An empty `code`.
pub fn code() -> (r: Code<WithoutChild>)
    ensures
        r.classes.0@.len() == 0,
        r.id is None,
        r.children@.len() == 0,
{
    Code { classes: Classes::new_in(), id: None, children: Vec::new(), has_child: PhantomData }
}

impl BuiltinHtmlElement for Code<WithChild> {
    open spec fn spec_classes(&self) -> Classes {
        self.classes
    }

    open spec fn spec_id(&self) -> Option<Seq<char>> {
        opt_str(self.id)
    }

    open spec fn same_content(&self, other: &Self) -> bool {
        self.children == other.children
    }

    proof fn lemma_same_content_trans(a: &Self, b: &Self, c: &Self) {
    }

    fn class(self, class: &str) -> (r: Self) {
        let mut this = self;
        this.classes.add(class);
        this
    }

    fn id(self, id: &str) -> (r: Self) {
        let mut this = self;
        this.id = Some(String::from_str(id));
        this
    }
}

impl FlowContent for Code<WithChild> {}

impl PhrasingContent for Code<WithChild> {}

impl PalpableContent for Code<WithChild> {}

impl Renderable for Code<WithChild> {
    open spec fn is_node_of(&self, n: Node) -> bool {
        n matches Node::Element(e) && is_element(e, "code"@, base_attributes(self.classes, opt_str(self.id)), self.children@)
    }

    fn into_node(self) -> (r: Node) {
        Node::Element(self.into_html_element())
    }
}

impl<HasChild> Code<HasChild> {
    /// Adds phrasing content.
    pub fn child<C: PhrasingContent>(self, child: C) -> (r: Code<WithChild>)
        ensures
            appended(r.children@, self.children@, child),
            r.classes == self.classes,
            r.id == self.id,
    {
        let Code { classes, id, children, has_child: _ } = self;
        let mut children = children;
        push_child(&mut children, child);
        Code { classes, id, children, has_child: PhantomData }
    }
}

impl Code<WithChild> {
    /// The `code` element.
    pub fn into_html_element(self) -> (r: GenericHtmlElement)
        ensures
            is_element(r, "code"@, base_attributes(self.classes, opt_str(self.id)), self.children@),
    {
        let attributes = base_attribute_list(&self.classes, &self.id);
        proof {
            reveal_strlit("code");
        }
        GenericHtmlElement {
            name: String::from_str("code"),
            attributes,
            children: self.children,
            late_children: Vec::new(),
        }
    }
}

/// The class naming the language of a code fragment: `language-` and the
/// language.
pub open spec fn language_class(lang: Seq<char>) -> Seq<char> {
    "language-"@ + lang
}

impl Code<WithChild> {
    /// Marks the language of the code with the class `language-` and the
    /// language, which must hold no ASCII white space and not be marked yet.
    pub fn language(self, lang: &str) -> (r: Self)
        requires
            self.classes.wf(),
            is_token(language_class(lang@)),
            !self.classes.contains(language_class(lang@)),
        ensures
            r.classes.wf(),
            strings_view(r.classes.0@) == strings_view(self.classes.0@).push(language_class(lang@)),
            opt_str(r.id) == opt_str(self.id),
            r.children == self.children,
    {
        let mut class = String::from_str("language-");
        class.append(lang);
        self.class(class.as_str())
    }
}

// ----- kbd -----

/// User input, typically from a keyboard, `kbd`.
pub struct KeyboardInput<HasChild> {
    pub classes: Classes,
    pub id: Option<String>,
    pub children: Vec<Node>,
    pub has_child: PhantomData<HasChild>,
}

/// An empty `kbd`.
pub fn kbd() -> (r: KeyboardInput<WithoutChild>)
    ensures
        r.classes.0@.len() == 0,
        r.id is None,
        r.children@.len() == 0,
{
    KeyboardInput { classes: Classes::new_in(), id: None, children: Vec::new(), has_child: PhantomData }
}

impl BuiltinHtmlElement for KeyboardInput<WithChild> {
    open spec fn spec_classes(&self) -> Classes {
        self.classes
    }

    open spec fn spec_id(&self) -> Option<Seq<char>> {
        opt_str(self.id)
    }

    open spec fn same_content(&self, other: &Self) -> bool {
        self.children == other.children
    }

    proof fn lemma_same_content_trans(a: &Self, b: &Self, c: &Self) {
    }

    fn class(self, class: &str) -> (r: Self) {
        let mut this = self;
        this.classes.add(class);
        this
    }

    fn id(self, id: &str) -> (r: Self) {
        let mut this = self;
        this.id = Some(String::from_str(id));
        this
    }
}

impl FlowContent for KeyboardInput<WithChild> {}

impl PhrasingContent for KeyboardInput<WithChild> {}

impl PalpableContent for KeyboardInput<WithChild> {}

impl Renderable for KeyboardInput<WithChild> {
    open spec fn is_node_of(&self, n: Node) -> bool {
        n matches Node::Element(e) && is_element(e, "kbd"@, base_attributes(self.classes, opt_str(self.id)), self.children@)
    }

    fn into_node(self) -> (r: Node) {
        Node::Element(self.into_html_element())
    }
}

impl<HasChild> KeyboardInput<HasChild> {
    /// Adds phrasing content.
    pub fn child<C: PhrasingContent>(self, child: C) -> (r: KeyboardInput<WithChild>)
        ensures
            appended(r.children@, self.children@, child),
            r.classes == self.classes,
            r.id == self.id,
    {
        let KeyboardInput { classes, id, children, has_child: _ } = self;
        let mut children = children;
        push_child(&mut children, child);
        KeyboardInput { classes, id, children, has_child: PhantomData }
    }
}

impl KeyboardInput<WithChild> {
    /// The `kbd` element.
    pub fn into_html_element(self) -> (r: GenericHtmlElement)
        ensures
            is_element(r, "kbd"@, base_attributes(self.classes, opt_str(self.id)), self.children@),
    {
        let attributes = base_attribute_list(&self.classes, &self.id);
        proof {
            reveal_strlit("kbd");
        }
        GenericHtmlElement {
            name: String::from_str("kbd"),
            attributes,
            children: self.children,
            late_children: Vec::new(),
        }
    }
}

// ----- br -----

/// A line break, `br`.
pub struct LineBreak {
    pub classes: Classes,
    pub id: Option<String>,
}

/// A line break.
pub fn br() -> (r: LineBreak)
    ensures
        r.classes.0@.len() == 0,
        r.id is None,
{
    LineBreak { classes: Classes::new_in(), id: None }
}

impl BuiltinHtmlElement for LineBreak {
    open spec fn spec_classes(&self) -> Classes {
        self.classes
    }

    open spec fn spec_id(&self) -> Option<Seq<char>> {
        opt_str(self.id)
    }

    open spec fn same_content(&self, other: &Self) -> bool {
        true
    }

    proof fn lemma_same_content_trans(a: &Self, b: &Self, c: &Self) {
    }

    fn class(self, class: &str) -> (r: Self) {
        let mut this = self;
        this.classes.add(class);
        this
    }

    fn id(self, id: &str) -> (r: Self) {
        let mut this = self;
        this.id = Some(String::from_str(id));
        this
    }
}

impl FlowContent for LineBreak {}

impl PhrasingContent for LineBreak {}

impl Renderable for LineBreak {
    open spec fn is_node_of(&self, n: Node) -> bool {
        n matches Node::Element(e) && is_element(e, "br"@, base_attributes(self.classes, opt_str(self.id)), Seq::empty())
    }

    fn into_node(self) -> (r: Node) {
        Node::Element(self.into_html_element())
    }
}

impl LineBreak {
    /// The `br` element, which has no children.
    pub fn into_html_element(self) -> (r: GenericHtmlElement)
        ensures
            is_element(r, "br"@, base_attributes(self.classes, opt_str(self.id)), Seq::empty()),
    {
        let attributes = base_attribute_list(&self.classes, &self.id);
        proof {
            reveal_strlit("br");
        }
        GenericHtmlElement {
            name: String::from_str("br"),
            attributes,
            children: Vec::new(),
            late_children: Vec::new(),
        }
    }
}

// ----- th, tr -----

/// A header cell of a table, `th`.
pub struct TableHeaderCell {
    pub classes: Classes,
    pub id: Option<String>,
    pub children: Vec<Node>,
}

/// An empty header cell.
pub fn th() -> (r: TableHeaderCell)
    ensures
        r.classes.0@.len() == 0,
        r.id is None,
        r.children@.len() == 0,
{
    TableHeaderCell { classes: Classes::new_in(), id: None, children: Vec::new() }
}

impl BuiltinHtmlElement for TableHeaderCell {
    open spec fn spec_classes(&self) -> Classes {
        self.classes
    }

    open spec fn spec_id(&self) -> Option<Seq<char>> {
        opt_str(self.id)
    }

    open spec fn same_content(&self, other: &Self) -> bool {
        self.children == other.children
    }

    proof fn lemma_same_content_trans(a: &Self, b: &Self, c: &Self) {
    }

    fn class(self, class: &str) -> (r: Self) {
        let mut this = self;
        this.classes.add(class);
        this
    }

    fn id(self, id: &str) -> (r: Self) {
        let mut this = self;
        this.id = Some(String::from_str(id));
        this
    }
}

impl Renderable for TableHeaderCell {
    open spec fn is_node_of(&self, n: Node) -> bool {
        n matches Node::Element(e) && is_element(e, "th"@, base_attributes(self.classes, opt_str(self.id)), self.children@)
    }

    fn into_node(self) -> (r: Node) {
        Node::Element(self.into_html_element())
    }
}

impl TableHeaderCell {
    /// Adds flow content.
    pub fn child<C: FlowContent>(self, child: C) -> (r: Self)
        ensures
            appended(r.children@, self.children@, child),
            r.classes == self.classes,
            r.id == self.id,
    {
        let mut this = self;
        push_child(&mut this.children, child);
        this
    }

    /// The `th` element.
    pub fn into_html_element(self) -> (r: GenericHtmlElement)
        ensures
            is_element(r, "th"@, base_attributes(self.classes, opt_str(self.id)), self.children@),
    {
        let attributes = base_attribute_list(&self.classes, &self.id);
        proof {
            reveal_strlit("th");
        }
        GenericHtmlElement {
            name: String::from_str("th"),
            attributes,
            children: self.children,
            late_children: Vec::new(),
        }
    }
}

/// A cell of a table row.
pub(crate) trait TdOrTh: Renderable {}

impl TdOrTh for TableHeaderCell {}

/// A row of table cells, `tr`.
pub struct TableRow {
    pub classes: Classes,
    pub id: Option<String>,
    pub children: Vec<Node>,
}

/// An empty row.
pub fn tr() -> (r: TableRow)
    ensures
        r.classes.0@.len() == 0,
        r.id is None,
        r.children@.len() == 0,
{
    TableRow { classes: Classes::new_in(), id: None, children: Vec::new() }
}

impl BuiltinHtmlElement for TableRow {
    open spec fn spec_classes(&self) -> Classes {
        self.classes
    }

    open spec fn spec_id(&self) -> Option<Seq<char>> {
        opt_str(self.id)
    }

    open spec fn same_content(&self, other: &Self) -> bool {
        self.children == other.children
    }

    proof fn lemma_same_content_trans(a: &Self, b: &Self, c: &Self) {
    }

    fn class(self, class: &str) -> (r: Self) {
        let mut this = self;
        this.classes.add(class);
        this
    }

    fn id(self, id: &str) -> (r: Self) {
        let mut this = self;
        this.id = Some(String::from_str(id));
        this
    }
}

impl Renderable for TableRow {
    open spec fn is_node_of(&self, n: Node) -> bool {
        n matches Node::Element(e) && is_element(e, "tr"@, base_attributes(self.classes, opt_str(self.id)), self.children@)
    }

    fn into_node(self) -> (r: Node) {
        Node::Element(self.into_html_element())
    }
}

impl TableRow {
    /// Adds a cell.
    #[allow(private_bounds)]
    pub fn child<C: TdOrTh>(self, child: C) -> (r: Self)
        ensures
            appended(r.children@, self.children@, child),
            r.classes == self.classes,
            r.id == self.id,
    {
        let mut this = self;
        push_child(&mut this.children, child);
        this
    }

    /// The `tr` element.
    pub fn into_html_element(self) -> (r: GenericHtmlElement)
        ensures
            is_element(r, "tr"@, base_attributes(self.classes, opt_str(self.id)), self.children@),
    {
        let attributes = base_attribute_list(&self.classes, &self.id);
        proof {
            reveal_strlit("tr");
        }
        GenericHtmlElement {
            name: String::from_str("tr"),
            attributes,
            children: self.children,
            late_children: Vec::new(),
        }
    }
}

// ----- colgroup, col -----

/// The `span` attribute of a column or column group, when it is set.
pub open spec fn span_attribute(span: Span) -> Seq<(Seq<char>, ValueView)> {
    match span.0 {
        Some(x) => seq![("span"@, ValueView::Number(x as i32))],
        None => Seq::empty(),
    }
}

/// One or more columns of a table, `col`.
pub struct TableColumns<State> {
    pub classes: Classes,
    pub id: Option<String>,
    pub span: Span,
    pub state: PhantomData<State>,
}

/// Columns with nothing set.
pub fn col() -> (r: TableColumns<Empty>)
    ensures
        r.classes.0@.len() == 0,
        r.id is None,
        r.span.0 is None,
{
    TableColumns { classes: Classes::new_in(), id: None, span: Span::new_in(), state: PhantomData }
}

/// The attributes of a `col` start tag: the id and class attributes, then
/// the class attribute once more; the span is not written.
pub open spec fn columns_attributes<State>(c: TableColumns<State>) -> Seq<(Seq<char>, ValueView)> {
    base_attributes(c.classes, opt_str(c.id)) + base_attributes(c.classes, None)
}

impl<State: TableColumnsState> BuiltinHtmlElement for TableColumns<State> {
    open spec fn spec_classes(&self) -> Classes {
        self.classes
    }

    open spec fn spec_id(&self) -> Option<Seq<char>> {
        opt_str(self.id)
    }

    open spec fn same_content(&self, other: &Self) -> bool {
        self.span == other.span
    }

    proof fn lemma_same_content_trans(a: &Self, b: &Self, c: &Self) {
    }

    fn class(self, class: &str) -> (r: Self) {
        let mut this = self;
        this.classes.add(class);
        this
    }

    fn id(self, id: &str) -> (r: Self) {
        let mut this = self;
        this.id = Some(String::from_str(id));
        this
    }
}

impl<State> TableColumns<State> {
    fn change_state<NewState>(self) -> (r: TableColumns<NewState>)
        ensures
            r.classes == self.classes,
            r.id == self.id,
            r.span == self.span,
    {
        let TableColumns { classes, id, span, state: _ } = self;
        TableColumns { classes, id, span, state: PhantomData }
    }
}

impl TableColumns<Empty> {
    /// Sets how many columns these are: between 1 and 1000.
    pub fn span(self, value: usize) -> (r: TableColumns<WithSpan>)
        requires
            0 < value <= 1000,
        ensures
            r.span.0 == Some(value),
            r.classes == self.classes,
            r.id == self.id,
    {
        let mut this = self;
        this.span.set(value);
        this.change_state()
    }
}

impl<State: TableColumnsState> Renderable for TableColumns<State> {
    open spec fn is_node_of(&self, n: Node) -> bool {
        n matches Node::Element(e) && is_element(e, "col"@, columns_attributes(*self), Seq::empty())
    }

    fn into_node(self) -> (r: Node) {
        Node::Element(self.into_html_element())
    }
}

impl<State: TableColumnsState> TableColumns<State> {
    /// The `col` element.
    pub fn into_html_element(self) -> (r: GenericHtmlElement)
        ensures
            is_element(r, "col"@, columns_attributes(self), Seq::empty()),
    {
        let mut attributes = base_attribute_list(&self.classes, &self.id);
        if let Some(attr) = self.classes.render() {
            attributes.push(attr);
        }
        assert(attrs_view(attributes@) =~= columns_attributes(self));
        proof {
            reveal_strlit("col");
        }
        GenericHtmlElement {
            name: String::from_str("col"),
            attributes,
            children: Vec::new(),
            late_children: Vec::new(),
        }
    }
}

/// A group of columns of a table, `colgroup`: either columns or a span.
pub struct TableColumnGroup<State> {
    pub classes: Classes,
    pub id: Option<String>,
    pub children: Vec<Node>,
    pub span: Span,
    pub state: PhantomData<State>,
}

/// An empty column group.
pub fn colgroup() -> (r: TableColumnGroup<Empty>)
    ensures
        r.classes.0@.len() == 0,
        r.id is None,
        r.children@.len() == 0,
        r.span.0 is None,
{
    TableColumnGroup {
        classes: Classes::new_in(),
        id: None,
        children: Vec::new(),
        span: Span::new_in(),
        state: PhantomData,
    }
}

/// The attributes of a `colgroup` start tag: id, class and `span`, the ones
/// that are set.
pub open spec fn column_group_attributes<State>(g: TableColumnGroup<State>) -> Seq<(Seq<char>, ValueView)> {
    base_attributes(g.classes, opt_str(g.id)) + span_attribute(g.span)
}

/// `after` is `before` with each of `items` appended as a node, in order.
pub open spec fn appended_all<C: Renderable>(after: Seq<Node>, before: Seq<Node>, items: Seq<C>) -> bool {
    &&& after.len() == before.len() + items.len()
    &&& after.subrange(0, before.len() as int) == before
    &&& forall|k: int| 0 <= k < items.len() ==> #[trigger] items[k].is_node_of(after[before.len() + k])
}

/// Appends each of `items` as a node, in order.
fn push_children<C: Renderable>(children: &mut Vec<Node>, items: Vec<C>)
    ensures
        appended_all(final(children)@, old(children)@, items@),
{
    let ghost all = items@;
    let ghost start = children@;
    let total = items.len();
    let mut items = items;
    let mut k: usize = 0;
    assert(children@.subrange(0, start.len() as int) =~= start);
    while items.len() > 0
        invariant
            all.len() == total,
            k + items@.len() == all.len(),
            items@ == all.subrange(k as int, all.len() as int),
            appended_all(children@, start, all.subrange(0, k as int)),
        decreases items@.len(),
    {
        let item = items.remove(0);
        let ghost before = children@;
        push_child(children, item);
        proof {
            assert(item == all[k as int]);
            let done = all.subrange(0, k + 1);
            assert(children@.subrange(0, start.len() as int) =~= start) by {
                assert(children@.subrange(0, before.len() as int) == before);
                assert(before.subrange(0, start.len() as int) == start);
            }
            assert forall|j: int| 0 <= j < done.len() implies #[trigger] done[j].is_node_of(
                children@[start.len() + j],
            ) by {
                if j < k {
                    assert(done[j] == all.subrange(0, k as int)[j]);
                    assert(children@[start.len() + j] == before[start.len() + j]);
                }
            }
        }
        k += 1;
        assert(items@ =~= all.subrange(k as int, all.len() as int));
    }
    assert(all.subrange(0, k as int) =~= all);
}

impl<State: TableColumnsState> BuiltinHtmlElement for TableColumnGroup<State> {
    open spec fn spec_classes(&self) -> Classes {
        self.classes
    }

    open spec fn spec_id(&self) -> Option<Seq<char>> {
        opt_str(self.id)
    }

    open spec fn same_content(&self, other: &Self) -> bool {
        self.children == other.children && self.span == other.span
    }

    proof fn lemma_same_content_trans(a: &Self, b: &Self, c: &Self) {
    }

    fn class(self, class: &str) -> (r: Self) {
        let mut this = self;
        this.classes.add(class);
        this
    }

    fn id(self, id: &str) -> (r: Self) {
        let mut this = self;
        this.id = Some(String::from_str(id));
        this
    }
}

impl<State> TableColumnGroup<State> {
    fn change_state<NewState>(self) -> (r: TableColumnGroup<NewState>)
        ensures
            r.classes == self.classes,
            r.id == self.id,
            r.children == self.children,
            r.span == self.span,
    {
        let TableColumnGroup { classes, id, children, span, state: _ } = self;
        TableColumnGroup { classes, id, children, span, state: PhantomData }
    }
}

impl TableColumnGroup<Empty> {
    /// Adds a row as a column.
    pub fn col(self, child: TableRow) -> (r: TableColumnGroup<WithCol>)
        ensures
            appended(r.children@, self.children@, child),
            r.classes == self.classes,
            r.id == self.id,
            r.span == self.span,
    {
        let mut this = self;
        push_child(&mut this.children, child);
        this.change_state()
    }

    /// Adds columns; there must be at least one.
    pub fn cols<State: TableColumnsState>(self, children: Vec<TableColumns<State>>) -> (r: TableColumnGroup<
        WithCol,
    >)
        requires
            children@.len() > 0,
        ensures
            appended_all(r.children@, self.children@, children@),
            r.classes == self.classes,
            r.id == self.id,
            r.span == self.span,
    {
        let mut this = self;
        push_children(&mut this.children, children);
        this.change_state()
    }

    /// Sets how many columns the group spans: between 1 and 1000.
    pub fn span(self, value: usize) -> (r: TableColumnGroup<WithSpan>)
        requires
            0 < value <= 1000,
        ensures
            r.span.0 == Some(value),
            r.classes == self.classes,
            r.id == self.id,
            r.children == self.children,
    {
        let mut this = self;
        this.span.set(value);
        this.change_state()
    }
}

impl TableColumnGroup<WithCol> {
    /// Adds a row as a column.
    pub fn col(self, child: TableRow) -> (r: TableColumnGroup<WithCol>)
        ensures
            appended(r.children@, self.children@, child),
            r.classes == self.classes,
            r.id == self.id,
            r.span == self.span,
    {
        let mut this = self;
        push_child(&mut this.children, child);
        this
    }

    /// Adds rows as columns; there must be at least one.
    pub fn cols(self, children: Vec<TableRow>) -> (r: TableColumnGroup<WithCol>)
        requires
            children@.len() > 0,
        ensures
            appended_all(r.children@, self.children@, children@),
            r.classes == self.classes,
            r.id == self.id,
            r.span == self.span,
    {
        let mut this = self;
        push_children(&mut this.children, children);
        this
    }
}

impl<State: TableColumnsState> Renderable for TableColumnGroup<State> {
    open spec fn is_node_of(&self, n: Node) -> bool {
        n matches Node::Element(e) && is_element(e, "colgroup"@, column_group_attributes(*self), self.children@)
    }

    fn into_node(self) -> (r: Node) {
        Node::Element(self.into_html_element())
    }
}

impl<State: TableColumnsState> TableColumnGroup<State> {
    /// The `colgroup` element.
    pub fn into_html_element(self) -> (r: GenericHtmlElement)
        ensures
            is_element(r, "colgroup"@, column_group_attributes(self), self.children@),
    {
        let mut attributes = base_attribute_list(&self.classes, &self.id);
        let ghost base = attrs_view(attributes@);
        if let Some(attr) = self.span.render() {
            attributes.push(attr);
        }
        assert(attrs_view(attributes@) =~= column_group_attributes(self));
        proof {
            reveal_strlit("colgroup");
        }
        GenericHtmlElement {
            name: String::from_str("colgroup"),
            attributes,
            children: self.children,
            late_children: Vec::new(),
        }
    }
}

} // verus!
