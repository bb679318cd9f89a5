use devtools::html_attributes::{
    is_token_exec, push_decimal, Attribute, CiteAttribute, Classes, HtmlAttribute, HtmlValue, Span,
};
use devtools::html_elements::{
    a, address, aside, blockquote, body, br, code, col, colgroup, div, figcaption, figure, h, has_space,
    header, heading_name, hgroup, hr, html, kbd, li, ol, p, q, render_page, th, tr, trim_str, BuiltinHtmlElement, GeneralDiv, NoValue,
    OrderedListMarkerType, Renderable, WithValue,
};
use devtools::html_render::{Context, GenericHtmlElement, Node};

fn render_node(node: &Node) -> String {
    let mut cx = Context::new("  ".to_string());
    node.render(&mut cx);
    cx.output
}

fn render_element(element: &GenericHtmlElement) -> String {
    let mut cx = Context::new("  ".to_string());
    element.render(&mut cx);
    cx.output
}

fn attribute_texts(attrs: &[HtmlAttribute]) -> String {
    attrs.iter().map(|a| a.render()).collect::<Vec<String>>().join("")
}

#[test]
fn decimal_numbers() {
    let mut out = String::new();
    push_decimal(&mut out, 0);
    out.push(' ');
    push_decimal(&mut out, 907);
    out.push(' ');
    push_decimal(&mut out, -45);
    out.push(' ');
    push_decimal(&mut out, i32::MIN);
    assert_eq!(out, "0 907 -45 -2147483648");
}

#[test]
fn attribute_text_by_kind() {
    let n = HtmlAttribute { name: "start".to_string(), value: HtmlValue::Number(-3) };
    let s = HtmlAttribute { name: "href".to_string(), value: HtmlValue::String("/x".to_string()) };
    let b = HtmlAttribute { name: "reversed".to_string(), value: HtmlValue::Bool };
    assert_eq!(n.render(), " start=\"-3\"");
    assert_eq!(s.render(), " href=\"/x\"");
    assert_eq!(b.render(), " reversed");
}

#[test]
fn tokens() {
    assert!(is_token_exec("main-menu"));
    assert!(!is_token_exec(""));
    assert!(!is_token_exec("a b"));
    assert!(!is_token_exec("a\tb"));
}

#[test]
fn classes_render_in_order() {
    let mut classes = Classes::new_in();
    assert!(classes.render().is_none());
    classes.add("b");
    classes.add("a");
    assert!(classes.has("a"));
    assert!(!classes.has("c"));
    assert_eq!(
        classes.render(),
        Some(HtmlAttribute { name: "class".to_string(), value: HtmlValue::String("b a".to_string()) })
    );
}

#[test]
fn span_and_cite() {
    let mut span = Span::new_in();
    assert!(span.render().is_none());
    span.set(3);
    assert_eq!(span.render(), Some(HtmlAttribute { name: "span".to_string(), value: HtmlValue::Number(3) }));
    let cite = CiteAttribute { source_address: Some("https://example.org".to_string()) };
    assert_eq!(
        cite.render(),
        Some(HtmlAttribute { name: "cite".to_string(), value: HtmlValue::String("https://example.org".to_string()) })
    );
    assert!(CiteAttribute::new_in().render().is_none());
}

#[test]
fn trimming_and_spaces() {
    assert_eq!(trim_str("  x y \n"), "x y");
    assert_eq!(trim_str("\u{2003}z\u{85}"), "z");
    assert_eq!(trim_str("   "), "");
    assert!(has_space("x y"));
    assert!(!has_space("xy"));
}

#[test]
fn heading_names() {
    assert_eq!(heading_name(1), "h1");
    assert_eq!(heading_name(6), "h6");
}

#[test]
fn link_attributes_in_order() {
    let link = a()
        .href("  /docs  ")
        .download()
        .ping("https://p1")
        .ping(" https://p2 ")
        .id("top")
        .classes(&["nav", "strong"]);
    assert_eq!(link.href.as_deref(), Some("/docs"));
    assert_eq!(
        attribute_texts(&link.attributes()),
        " id=\"top\" class=\"nav strong\" href=\"/docs\" download ping=\"https://p1 https://p2\""
    );
}

#[test]
fn link_renders_with_children() {
    let link = a().href("/").child("home".to_string());
    assert_eq!(render_node(&link.into_node()), "<a href=\"/\">\n  home\n</a>\n");
}

#[test]
fn empty_element_is_self_closing() {
    assert_eq!(render_element(&a().into_html_element()), "<a/>\n");
}

#[test]
fn ordered_list_with_items() {
    let list = ol()
        .reversed()
        .start(10)
        .marker_type(OrderedListMarkerType::upper_roman())
        .class("steps")
        .child(li(NoValue).child("one".to_string()))
        .child(li(WithValue(7)).child("two".to_string()));
    assert_eq!(
        attribute_texts(&list.attributes()),
        " class=\"steps\" reversed start=\"10\" type=\"I\""
    );
    let expected = String::new()
        + "<ol class=\"steps\" reversed start=\"10\" type=\"I\">\n"
        + "  <li>\n"
        + "    one\n"
        + "  </li>\n"
        + "  <li value=\"7\">\n"
        + "    two\n"
        + "  </li>\n"
        + "</ol>\n";
    assert_eq!(render_node(&list.into_node()), expected);
}

#[test]
fn marker_types() {
    assert_eq!(OrderedListMarkerType::decimal().0, "1");
    assert_eq!(OrderedListMarkerType::lower_alpha().0, "a");
    assert_eq!(OrderedListMarkerType::upper_alpha().0, "A");
    assert_eq!(OrderedListMarkerType::lower_roman().0, "i");
    assert_eq!(OrderedListMarkerType::upper_roman().0, "I");
}

#[test]
fn nested_flow_content() {
    let quote = blockquote()
        .cite("https://source")
        .child(p().child("said".to_string()))
        .id("q");
    let page = div::<GeneralDiv>()
        .child(h(2).child("Title".to_string()).class("big"))
        .child(quote);
    let expected = String::new()
        + "<div>\n"
        + "  <h2 class=\"big\">\n"
        + "    Title\n"
        + "  </h2>\n"
        + "  <blockquote id=\"q\" cite=\"https://source\">\n"
        + "    <p>\n"
        + "      said\n"
        + "    </p>\n"
        + "  </blockquote>\n"
        + "</div>\n";
    assert_eq!(render_node(&page.into_node()), expected);
}

#[test]
fn late_children_come_first() {
    let element = GenericHtmlElement {
        name: "section".to_string(),
        attributes: vec![HtmlAttribute { name: "id".to_string(), value: HtmlValue::String("s".to_string()) }],
        children: vec![Node::Text("body".to_string())],
        late_children: vec![Node::Text("summary".to_string())],
    };
    assert_eq!(render_element(&element), "<section id=\"s\">\n  summary\n  body\n</section>\n");
}

#[test]
fn late_children_of_an_empty_element_are_not_written() {
    let element = GenericHtmlElement {
        name: "br".to_string(),
        attributes: Vec::new(),
        children: Vec::new(),
        late_children: vec![Node::Text("lost".to_string())],
    };
    assert_eq!(render_element(&element), "<br/>\n");
}

#[test]
fn rendering_starts_at_the_context_depth() {
    let mut cx = Context::new("\t".to_string());
    cx.indentation.level = 2;
    cx.output.push_str("x\n");
    Node::Text("t".to_string()).render(&mut cx);
    assert_eq!(cx.output, "x\n\t\tt\n");
    assert_eq!(cx.indentation.level, 2);
}

#[test]
fn sectioning_elements() {
    let page = body()
        .class("page")
        .child(header().child(hgroup().p(p().child("tagline".to_string())).heading(h(1).child("Site".to_string()))))
        .child(hr().id("rule"))
        .child(aside().child("side".to_string()))
        .child(address().child("me@example.org".to_string()));
    let expected = String::new()
        + "<body class=\"page\">\n"
        + "  <header>\n"
        + "    <hgroup>\n"
        + "      <p>\n"
        + "        tagline\n"
        + "      </p>\n"
        + "      <h1>\n"
        + "        Site\n"
        + "      </h1>\n"
        + "    </hgroup>\n"
        + "  </header>\n"
        + "  <hr id=\"rule\"/>\n"
        + "  <aside>\n"
        + "    side\n"
        + "  </aside>\n"
        + "  <address>\n"
        + "    me@example.org\n"
        + "  </address>\n"
        + "</body>\n";
    assert_eq!(render_node(&page.into_node()), expected);
}

#[test]
fn body_does_not_write_its_id() {
    let b = body().id("main").class("x");
    assert_eq!(render_element(&b.into_html_element()), "<body class=\"x\"/>\n");
}

#[test]
fn figure_states() {
    let captioned_after = figure()
        .child(p().child("picture".to_string()))
        .caption(figcaption().child("caption".to_string()));
    let expected = String::new()
        + "<figure>\n"
        + "  <p>\n"
        + "    picture\n"
        + "  </p>\n"
        + "  <figcaption>\n"
        + "    caption\n"
        + "  </figcaption>\n"
        + "</figure>\n";
    assert_eq!(render_node(&captioned_after.into_node()), expected);
    let captioned_before = figure().caption(figcaption()).child("a".to_string()).child("b".to_string());
    assert_eq!(
        render_node(&captioned_before.into_node()),
        "<figure>\n  <figcaption/>\n  a\n  b\n</figure>\n"
    );
}

#[test]
fn quotation_attributes() {
    let quote = q().cite("https://src").child("hi".to_string()).class("c").id("i");
    assert_eq!(render_node(&quote.into_node()), "<q id=\"i\" cite=\"https://src\" class=\"c\">\n  hi\n</q>\n");
}

#[test]
fn document_with_styles_in_its_head() {
    let mut document = html();
    document.body(body().child(p().child("x".to_string())));
    let mut cx = Context::new("  ".to_string());
    cx.styles.push("  .a { }\n".to_string());
    cx.styles.push("b{}".to_string());
    document.render(&mut cx);
    let expected = String::new()
        + "<!DOCTYPE html><html>\n"
        + "  <head>\n"
        + "    <style>\n"
        + "\n"
        + ".a { }\n"
        + "\n"
        + "b{}\n"
        + "\n"
        + "    </style>\n"
        + "  </head>\n"
        + "  <body>\n"
        + "    <p>\n"
        + "      x\n"
        + "    </p>\n"
        + "  </body>\n"
        + "</html>\n";
    assert_eq!(cx.output, expected);
}

#[test]
fn page_with_global_styles() {
    let page = render_page(body().child("Hello World!".to_string()), " x{} ".to_string(), "  ".to_string());
    let expected = String::new()
        + "<!DOCTYPE html><html>\n"
        + "  <head>\n"
        + "    <style>\n"
        + "\n"
        + "x{}\n"
        + "\n"
        + "    </style>\n"
        + "  </head>\n"
        + "  <body>\n"
        + "    Hello World!\n"
        + "  </body>\n"
        + "</html>\n";
    assert_eq!(page, expected);
}

#[test]
fn phrasing_elements() {
    let para = p()
        .child(code().child("x + 1".to_string()).language("rust"))
        .child(br())
        .child(kbd().child("Ctrl".to_string()).id("key"));
    let expected = String::new()
        + "<p>\n"
        + "  <code class=\"language-rust\">\n"
        + "    x + 1\n"
        + "  </code>\n"
        + "  <br/>\n"
        + "  <kbd id=\"key\">\n"
        + "    Ctrl\n"
        + "  </kbd>\n"
        + "</p>\n";
    assert_eq!(render_node(&para.into_node()), expected);
}

#[test]
fn table_row_of_header_cells() {
    let row = tr().class("head").child(th().child("Name".to_string())).child(th());
    assert_eq!(
        render_node(&row.into_node()),
        "<tr class=\"head\">\n  <th>\n    Name\n  </th>\n  <th/>\n</tr>\n"
    );
}

#[test]
fn column_group_with_span() {
    let group = colgroup().span(3).class("wide");
    assert_eq!(render_node(&group.into_node()), "<colgroup class=\"wide\" span=\"3\"/>\n");
}

#[test]
fn column_group_with_columns() {
    let group = colgroup().cols(vec![col().span(2).class("a"), col().span(1)]);
    // a `col` writes its class attribute twice and not its span
    assert_eq!(
        render_node(&group.into_node()),
        "<colgroup>\n  <col class=\"a\" class=\"a\"/>\n  <col/>\n</colgroup>\n"
    );
    let rows = colgroup().col(tr()).cols(vec![tr(), tr()]);
    assert_eq!(rows.children.len(), 3);
}
