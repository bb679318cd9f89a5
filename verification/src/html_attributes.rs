//! HTML attributes: their values, how they are written in a start tag, and
//! the attribute lists of elements.
use vstd::prelude::*;
use crate::text::{join, push_char};

verus! {

/// The value of an attribute: a number, a string, or none (a boolean
/// attribute, present or absent).
#[derive(Debug, Clone, PartialEq, Eq)]
pub enum HtmlValue {
    Number(i32),
    String(String),
    Bool,
}

/// An attribute of a start tag.
#[derive(Debug, Clone, PartialEq, Eq)]
pub struct HtmlAttribute {
    pub name: String,
    pub value: HtmlValue,
}

pub open spec fn digit_char(d: int) -> char {
    ((d + 48) as u8) as char
}

/// The decimal digits of `n`.
pub open spec fn digits(n: nat) -> Seq<char>
    decreases n,
{
    if n < 10 {
        seq![digit_char(n as int)]
    } else {
        digits(n / 10).push(digit_char((n % 10) as int))
    }
}

/// `n` written in decimal, with a minus sign when negative.
pub open spec fn decimal(n: int) -> Seq<char> {
    if n < 0 {
        seq!['-'] + digits((-n) as nat)
    } else {
        digits(n as nat)
    }
}

/// How an attribute is written in a start tag: a space and its name, then
/// `="value"` unless it is a boolean attribute. String values are written
/// as they are.
pub open spec fn attribute_text(a: HtmlAttribute) -> Seq<char> {
    seq![' '] + a.name@ + match a.value {
        HtmlValue::Number(n) => seq!['=', '"'] + decimal(n as int) + seq!['"'],
        HtmlValue::String(s) => seq!['=', '"'] + s@ + seq!['"'],
        HtmlValue::Bool => Seq::empty(),
    }
}

fn push_digits(out: &mut String, n: u64)
    ensures
        final(out)@ == old(out)@ + digits(n as nat),
    decreases n,
{
    if n >= 10 {
        push_digits(out, n / 10);
    }
    let d = (n % 10) as u8;
    push_char(out, (d + 48) as char);
    assert(out@ =~= old(out)@ + digits(n as nat));
}

/// Appends `n` in decimal.
pub fn push_decimal(out: &mut String, n: i32)
    ensures
        final(out)@ == old(out)@ + decimal(n as int),
{
    if n < 0 {
        push_char(out, '-');
        let m = (0 - (n as i64)) as u64;
        push_digits(out, m);
        assert(out@ =~= old(out)@ + decimal(n as int));
    } else {
        push_digits(out, n as u64);
    }
}

impl HtmlAttribute {
    /// The attribute as written in a start tag.
    pub fn render(&self) -> (r: String)
        ensures
            r@ == attribute_text(*self),
    {
        let mut out = String::new();
        push_char(&mut out, ' ');
        out.append(self.name.as_str());
        match &self.value {
            HtmlValue::Number(number) => {
                push_char(&mut out, '=');
                push_char(&mut out, '"');
                push_decimal(&mut out, *number);
                push_char(&mut out, '"');
            },
            HtmlValue::String(string) => {
                push_char(&mut out, '=');
                push_char(&mut out, '"');
                out.append(string.as_str());
                push_char(&mut out, '"');
            },
            HtmlValue::Bool => {},
        }
        assert(out@ =~= attribute_text(*self));
        out
    }
}

/// `r` is the attribute `name` with the string `value`.
pub open spec fn is_string_attr(r: Option<HtmlAttribute>, name: Seq<char>, value: Seq<char>) -> bool {
    match r {
        Some(a) => a.name@ == name && match a.value {
            HtmlValue::String(v) => v@ == value,
            _ => false,
        },
        None => false,
    }
}

/// `r` is the attribute `name` with the number `value`.
pub open spec fn is_number_attr(r: Option<HtmlAttribute>, name: Seq<char>, value: int) -> bool {
    match r {
        Some(a) => a.name@ == name && match a.value {
            HtmlValue::Number(n) => n == value,
            _ => false,
        },
        None => false,
    }
}

/// The value of an attribute as a mathematical value.
pub enum ValueView {
    Number(i32),
    Text(Seq<char>),
    Bool,
}

pub open spec fn value_view(v: HtmlValue) -> ValueView {
    match v {
        HtmlValue::Number(n) => ValueView::Number(n),
        HtmlValue::String(s) => ValueView::Text(s@),
        HtmlValue::Bool => ValueView::Bool,
    }
}

/// An attribute as its name and value.
pub open spec fn attr_view(a: HtmlAttribute) -> (Seq<char>, ValueView) {
    (a.name@, value_view(a.value))
}

pub open spec fn attrs_view(v: Seq<HtmlAttribute>) -> Seq<(Seq<char>, ValueView)> {
    v.map_values(|a: HtmlAttribute| attr_view(a))
}

/// An attribute that an element may carry, absent until it is set.
pub trait Attribute: Sized {
    /// The attribute, not set.
    fn new_in() -> Self;

    /// The attribute to write, if it is set.
    fn render(&self) -> Option<HtmlAttribute>;
}

/// ASCII whitespace as `char::is_ascii_whitespace` has it.
pub open spec fn is_ascii_ws(c: char) -> bool {
    c == ' ' || c == '\t' || c == '\n' || c == '\x0C' || c == '\r'
}

/// A class name or an id: not empty, without ASCII whitespace.
pub open spec fn is_token(s: Seq<char>) -> bool {
    &&& s.len() > 0
    &&& forall|i: int| 0 <= i < s.len() ==> !is_ascii_ws(#[trigger] s[i])
}

/// Whether `s` is not empty and holds no ASCII whitespace.
pub fn is_token_exec(s: &str) -> (r: bool)
    ensures
        r == is_token(s@),
{
    let len = s.unicode_len();
    if len == 0 {
        return false;
    }
    let mut i: usize = 0;
    while i < len
        invariant
            len == s@.len(),
            i <= len,
            forall|j: int| 0 <= j < i ==> !is_ascii_ws(#[trigger] s@[j]),
        decreases len - i,
    {
        let c = s.get_char(i);
        if c == ' ' || c == '\t' || c == '\n' || c == '\x0C' || c == '\r' {
            return false;
        }
        i += 1;
    }
    true
}

pub open spec fn strings_view(v: Seq<String>) -> Seq<Seq<char>> {
    v.map_values(|s: String| s@)
}

/// The classes of an element, in the order they were added.
#[derive(Debug, Clone)]
pub struct Classes(pub Vec<String>);

impl Classes {
    /// Every class is a token and no class occurs twice.
    pub open spec fn wf(&self) -> bool {
        &&& forall|i: int| 0 <= i < self.0@.len() ==> is_token(#[trigger] self.0@[i]@)
        &&& forall|i: int, j: int|
            0 <= i < j < self.0@.len() ==> (#[trigger] self.0@[i])@ != (#[trigger] self.0@[j])@
    }

    pub open spec fn contains(&self, class: Seq<char>) -> bool {
        exists|i: int| 0 <= i < self.0@.len() && (#[trigger] self.0@[i])@ == class
    }

    /// Whether `class` is one of the classes.
    pub fn has(&self, class: &str) -> (r: bool)
        ensures
            r == self.contains(class@),
    {
        let mut i: usize = 0;
        while i < self.0.len()
            invariant
                i <= self.0@.len(),
                forall|j: int| 0 <= j < i ==> (#[trigger] self.0@[j])@ != class@,
            decreases self.0.len() - i,
        {
            if crate::text::str_order(self.0[i].as_str(), class) == crate::text::StrOrder::Equal {
                return true;
            }
            i += 1;
        }
        false
    }

    /// Adds a class; it must be a token not present yet.
    pub fn add(&mut self, class: &str)
        requires
            old(self).wf(),
            !old(self).contains(class@),
            is_token(class@),
        ensures
            final(self).wf(),
            strings_view(final(self).0@) == strings_view(old(self).0@).push(class@),
    {
        self.0.push(class.to_owned());
        assert(strings_view(self.0@) =~= strings_view(old(self).0@).push(class@));
    }
}

impl Attribute for Classes {
    fn new_in() -> (r: Self)
        ensures
            r.0@.len() == 0,
    {
        Classes(Vec::new())
    }

    /// `class` with the classes separated by spaces, when there is one.
    fn render(&self) -> (r: Option<HtmlAttribute>)
        ensures
            self.0@.len() == 0 ==> r is None,
            self.0@.len() > 0 ==> is_string_attr(r, "class"@, join(strings_view(self.0@), seq![' '])),
    {
        if self.0.len() == 0 {
            None
        } else {
            let mut value = String::new();
            let ghost v = strings_view(self.0@);
            let mut k: usize = 0;
            while k < self.0.len()
                invariant
                    k <= self.0@.len(),
                    v == strings_view(self.0@),
                    value@ == join(v.subrange(0, k as int), seq![' ']),
                decreases self.0.len() - k,
            {
                if k > 0 {
                    push_char(&mut value, ' ');
                }
                value.append(self.0[k].as_str());
                k += 1;
                proof {
                    let w = v.subrange(0, k as int);
                    assert(w.drop_last() =~= v.subrange(0, k - 1));
                    if k == 1 {
                        assert(join(v.subrange(0, 0), seq![' ']) =~= Seq::<char>::empty());
                    }
                    assert(value@ =~= join(w, seq![' ']));
                }
            }
            assert(v.subrange(0, self.0@.len() as int) =~= v);
            Some(HtmlAttribute { name: String::from_str("class"), value: HtmlValue::String(value) })
        }
    }
}

/// The number of columns a column group or column spans.
pub struct Span(pub Option<usize>);

impl Span {
    /// Sets the span; it must be between 1 and 1000.
    pub fn set(&mut self, value: usize)
        requires
            0 < value <= 1000,
        ensures
            final(self).0 == Some(value),
    {
        self.0 = Some(value);
    }
}

impl Attribute for Span {
    fn new_in() -> (r: Self)
        ensures
            r.0 is None,
    {
        Span(None)
    }

    /// `span` with its number, when it is set.
    fn render(&self) -> (r: Option<HtmlAttribute>)
        ensures
            match self.0 {
                None => r is None,
                Some(x) => r matches Some(a) && a.name@ == "span"@ && a.value == HtmlValue::Number(
                    x as i32,
                ),
            },
    {
        match self.0 {
            None => None,
            Some(x) => Some(
                HtmlAttribute {
                    name: String::from_str("span"),
                    value: HtmlValue::Number(#[verifier::truncate] (x as i32)),
                },
            ),
        }
    }
}

/// The address a quotation comes from.
pub struct CiteAttribute {
    pub source_address: Option<String>,
}

impl Attribute for CiteAttribute {
    fn new_in() -> (r: Self)
        ensures
            r.source_address is None,
    {
        CiteAttribute { source_address: None }
    }

    /// `cite` with the address, when it is set.
    fn render(&self) -> (r: Option<HtmlAttribute>)
        ensures
            match self.source_address {
                None => r is None,
                Some(s) => is_string_attr(r, "cite"@, s@),
            },
    {
        match &self.source_address {
            None => None,
            Some(address) => Some(
                HtmlAttribute {
                    name: String::from_str("cite"),
                    value: HtmlValue::String(address.clone()),
                },
            ),
        }
    }
}

} // verus!
