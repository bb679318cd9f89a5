use devtools::json_format::{render_data, try_render_data};
use devtools::json_parse::{find_escaped_string_length, parse_json_structure, try_parse_json_structure};
use devtools::json_viewer::{JsonMetadata, JsonMetadataIndex, NameOrIndex, ObjectMeta, ObjectType};

fn idx(i: u32) -> JsonMetadataIndex {
    JsonMetadataIndex(i)
}

fn parsed(text: &str) -> JsonMetadata {
    try_parse_json_structure(text.as_bytes()).expect("the document parses")
}

fn rendered(text: &str) -> String {
    let structure = parsed(text);
    let bytes = try_render_data(text.as_bytes(), &structure).expect("the document renders");
    String::from_utf8(bytes).expect("the output is UTF-8")
}

#[test]
fn escaped_string_length_plain() {
    assert_eq!(find_escaped_string_length(b"\"abc\" tail"), Some(5));
}

#[test]
fn escaped_string_length_escaped_quote() {
    assert_eq!(find_escaped_string_length(b"\"a\\\"b\"x"), Some(6));
}

#[test]
fn escaped_string_length_escaped_backslash() {
    assert_eq!(find_escaped_string_length(b"\"a\\\\\"b"), Some(5));
}

#[test]
fn escaped_string_length_unterminated() {
    assert_eq!(find_escaped_string_length(b"\"abc"), None);
    assert_eq!(find_escaped_string_length(b"\"ab\\\""), None);
}

#[test]
fn escaped_string_length_empty_string() {
    assert_eq!(find_escaped_string_length(b"\"\""), Some(2));
}

#[test]
fn parse_array_of_number_and_structure() {
    let m = parsed("[1, {\"a\": true}]");
    assert_eq!(m.list.len(), 4);
    assert_eq!(
        m.list[0],
        ObjectMeta {
            name_or_index: NameOrIndex::Index(0),
            ty: ObjectType::Array,
            source_start: 0,
            source_len: 16,
            parent: None,
            prev: None,
            next: None,
            expanded: true,
        }
    );
    assert_eq!(
        m.list[1],
        ObjectMeta {
            name_or_index: NameOrIndex::Index(0),
            ty: ObjectType::Number,
            source_start: 1,
            source_len: 1,
            parent: Some(idx(0)),
            prev: None,
            next: Some(idx(2)),
            expanded: false,
        }
    );
    assert_eq!(
        m.list[2],
        ObjectMeta {
            name_or_index: NameOrIndex::Index(1),
            ty: ObjectType::Structure,
            source_start: 4,
            source_len: 11,
            parent: Some(idx(0)),
            prev: Some(idx(1)),
            next: None,
            expanded: false,
        }
    );
    assert_eq!(
        m.list[3],
        ObjectMeta {
            name_or_index: NameOrIndex::Name { start: 5, len: 3 },
            ty: ObjectType::Bool,
            source_start: 10,
            source_len: 4,
            parent: Some(idx(2)),
            prev: None,
            next: None,
            expanded: false,
        }
    );
}

#[test]
fn parse_keeps_empty_containers_empty() {
    let m = parsed("{\"x\": [], \"y\": {}}");
    assert_eq!(m.list.len(), 3);
    assert_eq!(m.list[0].ty, ObjectType::Structure);
    assert_eq!(m.list[1].ty, ObjectType::EmptyArray);
    assert_eq!(m.list[1].source_start, 6);
    assert_eq!(m.list[1].source_len, 2);
    assert_eq!(m.list[1].next, Some(idx(2)));
    assert_eq!(m.list[2].ty, ObjectType::EmptyStructure);
    assert_eq!(m.list[2].name_or_index, NameOrIndex::Name { start: 10, len: 3 });
    assert_eq!(m.list[2].prev, Some(idx(1)));
}

#[test]
fn parse_scalars_and_fractions() {
    let m = parsed("[-12.50, \"s\\\"t\", null, false]");
    assert_eq!(m.list.len(), 5);
    assert_eq!(m.list[1].ty, ObjectType::Number);
    assert_eq!(m.list[1].source_len, 6);
    assert_eq!(m.list[2].ty, ObjectType::String);
    assert_eq!(m.list[2].source_start, 9);
    assert_eq!(m.list[2].source_len, 6);
    assert_eq!(m.list[3].ty, ObjectType::Null);
    assert_eq!(m.list[4].ty, ObjectType::Bool);
    assert_eq!(m.list[4].source_len, 5);
    assert_eq!(m.list[4].name_or_index, NameOrIndex::Index(3));
}

#[test]
fn parse_rejects_what_the_parser_cannot_read() {
    // a scalar that ends the input: the parser reads past the end
    assert!(try_parse_json_structure(b"1").is_none());
    // an unknown character
    assert!(try_parse_json_structure(b"[x]").is_none());
    // a misspelt literal
    assert!(try_parse_json_structure(b"[nul]").is_none());
    // a key without a colon
    assert!(try_parse_json_structure(b"{\"a\" 1}").is_none());
    // a bare value inside a structure
    assert!(try_parse_json_structure(b"{1}").is_none());
    // a closing bracket with nothing open
    assert!(try_parse_json_structure(b"]").is_none());
}

#[test]
fn parse_empty_input_gives_empty_list() {
    let m = parsed("");
    assert_eq!(m.list.len(), 0);
}

#[test]
fn parse_json_structure_on_valid_input() {
    let m = parse_json_structure(b"[true]");
    assert_eq!(m.list.len(), 2);
    assert_eq!(m.list[1].ty, ObjectType::Bool);
}

#[test]
fn navigation_next_and_prev() {
    let mut m = parsed("[1, {\"a\": true}, 2]");
    // the root is expanded, the structure is not
    assert_eq!(m.next_visible(idx(0)), Some(idx(1)));
    assert_eq!(m.next_visible(idx(1)), Some(idx(2)));
    assert_eq!(m.next_visible(idx(2)), Some(idx(4)));
    assert_eq!(m.next_visible(idx(4)), None);
    assert_eq!(m.prev_visible(idx(4)), Some(idx(2)));
    assert_eq!(m.prev_visible(idx(2)), Some(idx(1)));
    assert_eq!(m.prev_visible(idx(1)), Some(idx(0)));
    assert_eq!(m.prev_visible(idx(0)), None);
    // once expanded, the structure shows its member
    m.list[2].expanded = true;
    assert_eq!(m.next_visible(idx(2)), Some(idx(3)));
    assert_eq!(m.next_visible(idx(3)), Some(idx(4)));
    assert_eq!(m.prev_visible(idx(4)), Some(idx(3)));
    assert_eq!(m.prev_visible(idx(3)), Some(idx(2)));
    assert_eq!(m.last_in_childrens(idx(2)), idx(3));
    assert_eq!(m.last_in_childrens(idx(0)), idx(4));
    assert_eq!(m.next_no_children(idx(3)), Some(idx(4)));
}

#[test]
fn navigation_round_trip_on_every_shown_value() {
    let mut m = parsed("{\"a\": [1, [2, 3]], \"b\": {\"c\": null}, \"d\": 4}");
    for i in 0..m.list.len() {
        m.list[i].expanded = true;
    }
    for i in 0..m.list.len() as u32 {
        if let Some(j) = m.next_visible(idx(i)) {
            assert_eq!(m.prev_visible(j), Some(idx(i)));
        }
        if let Some(h) = m.prev_visible(idx(i)) {
            assert_eq!(m.next_visible(h), Some(idx(i)));
        }
    }
}

#[test]
fn depth_counts_ancestors() {
    let m = parsed("[[[1]]]");
    assert_eq!(m.depth(idx(0)), 0);
    assert_eq!(m.depth(idx(1)), 1);
    assert_eq!(m.depth(idx(2)), 2);
    assert_eq!(m.depth(idx(3)), 3);
}

#[test]
fn index_new_and_get() {
    let i = JsonMetadataIndex::new(7);
    assert_eq!(i, JsonMetadataIndex(7));
    assert_eq!(i.get(), 7);
}

#[test]
fn push_appends() {
    let mut m = JsonMetadata { list: Vec::new() };
    let meta = ObjectMeta {
        name_or_index: NameOrIndex::Index(0),
        ty: ObjectType::Null,
        source_start: 0,
        source_len: 4,
        parent: None,
        prev: None,
        next: None,
        expanded: false,
    };
    assert_eq!(m.push(meta), idx(0));
    assert_eq!(m.push(meta), idx(1));
    assert_eq!(*m.index(idx(1)), meta);
}

#[test]
fn render_nested_document() {
    assert_eq!(
        rendered("[1, {\"a\": true}]"),
        "[\n  1,\n  {\n    \"a\": true\n  }\n]\n"
    );
}

#[test]
fn render_closing_brackets_carry_no_comma() {
    assert_eq!(
        rendered("{\"x\": [1, 2], \"y\": \"z\"}"),
        "{\n  \"x\": [\n    1,\n    2\n  ]\n  \"y\": \"z\"\n}\n"
    );
}

#[test]
fn render_empty_containers_as_written() {
    assert_eq!(rendered("{\"x\": [ ], \"y\": 3}"), "{\n  \"x\": [ ],\n  \"y\": 3\n}\n");
}

#[test]
fn render_data_matches_try_render_data() {
    let text = b"[null, [false]]";
    let m = parse_json_structure(text);
    let out = render_data(text, &m);
    assert_eq!(out, b"[\n  null,\n  [\n    false\n  ]\n]\n".to_vec());
}

#[test]
fn render_refuses_text_that_is_not_utf8() {
    let text: &[u8] = &[b'[', b'"', 0xff, b'"', b']'];
    let m = try_parse_json_structure(text).expect("the structure parses");
    assert_eq!(m.list.len(), 2);
    assert!(try_render_data(text, &m).is_none());
}

#[test]
fn render_refuses_empty_structure_list() {
    let m = JsonMetadata { list: Vec::new() };
    assert!(try_render_data(b"", &m).is_none());
}

#[test]
fn render_valid_utf8_document_with_non_ascii_text() {
    assert_eq!(
        rendered("[\"é\", {\"ключ\": \"значение\"}]"),
        "[\n  \"é\",\n  {\n    \"ключ\": \"значение\"\n  }\n]\n"
    );
}

#[test]
fn root_comes_first_and_alone() {
    let m = parsed("[1, {\"a\": true}, [null]]");
    let l = &m.list;
    assert!(!l.is_empty());
    assert_eq!(l[0].parent, None);
    assert_eq!(l[0].prev, None);
    assert_eq!(l[0].next, None);
    assert!(l[0].expanded);
    for (k, e) in l.iter().enumerate().skip(1) {
        let p = e.parent.expect("a later value has a parent");
        assert!((p.0 as usize) < k);
        assert!(!e.expanded);
    }
}

#[test]
fn array_elements_count_their_siblings_and_keys_point_at_quotes() {
    let text = "[10, {\"ab\": 1, \"c\": [2, 3]}, \"x\"]";
    let m = parsed(text);
    let l = &m.list;
    let bytes = text.as_bytes();
    for (k, e) in l.iter().enumerate() {
        if let Some(p) = e.parent {
            let parent = &l[p.0 as usize];
            let earlier = l[..k].iter().filter(|x| x.parent == e.parent).count() as u64;
            match parent.ty {
                ObjectType::Array => assert_eq!(e.name_or_index, NameOrIndex::Index(earlier)),
                ObjectType::Structure => match e.name_or_index {
                    NameOrIndex::Name { start, len } => {
                        let (start, len) = (start, len as usize);
                        assert_eq!(bytes[start], b'"');
                        assert_eq!(bytes[start + len - 1], b'"');
                        assert_eq!(bytes[start + len], b':');
                    },
                    NameOrIndex::Index(_) => panic!("a member has a key"),
                },
                _ => panic!("a parent is a filled container"),
            }
        }
    }
    assert_eq!(l[6].name_or_index, NameOrIndex::Index(1));
    assert_eq!(l[7].name_or_index, NameOrIndex::Index(2));
}

#[test]
fn containers_start_with_their_bracket_and_have_children() {
    let text = "{\"a\": [], \"b\": {}, \"c\": [1], \"d\": {\"e\": 2}}";
    let m = parsed(text);
    let l = &m.list;
    let bytes = text.as_bytes();
    for (p, e) in l.iter().enumerate() {
        let has_children = l.iter().any(|x| x.parent == Some(idx(p as u32)));
        let filled = matches!(e.ty, ObjectType::Array | ObjectType::Structure);
        assert_eq!(has_children, filled);
        let is_array = matches!(e.ty, ObjectType::Array | ObjectType::EmptyArray);
        let is_struct = matches!(e.ty, ObjectType::Structure | ObjectType::EmptyStructure);
        assert_eq!(is_array, bytes[e.source_start] == b'[');
        assert_eq!(is_struct, bytes[e.source_start] == b'{');
    }
}

#[test]
fn sources_are_ordered_and_nested() {
    let text = "[1, [2, \"x\"], {\"k\": null}]";
    let m = parsed(text);
    let l = &m.list;
    for j in 0..l.len() {
        for k in j + 1..l.len() {
            assert!(l[j].source_start < l[k].source_start);
        }
    }
    for e in l.iter() {
        if let Some(q) = e.prev {
            let q = &l[q.0 as usize];
            assert!(q.source_start + q.source_len <= e.source_start);
        }
        if let Some(p) = e.parent {
            let p = &l[p.0 as usize];
            assert!(p.source_len > 0);
            assert!(p.source_start < e.source_start);
            assert!(e.source_start + e.source_len < p.source_start + p.source_len);
        }
    }
    assert_eq!(l[0].source_len, text.len());
}

#[test]
fn an_unclosed_container_keeps_length_zero() {
    let m = parsed("[[]");
    assert_eq!(m.list[0].source_len, 0);
    assert_eq!(m.list[1].source_start, 1);
    assert_eq!(m.list[1].source_len, 2);
}
