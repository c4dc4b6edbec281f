use wirecodec::fault::{DecodeError, Kind, Step};
use wirecodec::fields::{
    decode_date_at, decode_identifier_at, decode_locator_at, decode_span_at, decode_timestamp_at,
};
use wirecodec::hub::has_distinct_names;
use wirecodec::transcode::{parse, render, Format};
use wirecodec::tree::{entry, Node};

fn sample() -> Node {
    Node::Record(vec![
        entry("name", Node::text("stream")),
        entry("size", Node::number(7)),
        entry("open", Node::Bool(true)),
        entry("none", Node::Null),
        entry("load", Node::Real("0.5".to_string())),
        entry("items", Node::List(vec![Node::Int(-1), Node::List(vec![]), Node::Record(vec![])])),
    ])
}

fn malformed(name: &str) -> DecodeError {
    DecodeError { kind: Kind::MalformedStructure, path: vec![Step::Field(name.to_string())] }
}

#[test]
fn a_copy_holds_the_same_tree() {
    let tree = sample();
    let copy = tree.clone();
    assert_eq!(copy, tree);
}

#[test]
fn members_are_found_by_name() {
    let tree = sample();
    assert_eq!(tree.member("size"), Ok(&Node::Int(7)));
    assert_eq!(tree.member("none"), Ok(&Node::Null));
    assert_eq!(tree.member("gone"), Err(malformed("gone")));
    assert_eq!(tree.member(""), Err(malformed("")));
    assert_eq!(
        Node::Int(1).member("size"),
        Err(DecodeError { kind: Kind::MalformedStructure, path: vec![] })
    );
}

#[test]
fn scalars_are_read_with_their_shape() {
    let tree = sample();
    assert_eq!(tree.text_at("name"), Ok("stream"));
    assert_eq!(tree.number_at("size"), Ok(7));
    assert_eq!(tree.flag_at("open"), Ok(true));
    assert_eq!(tree.text_at("size"), Err(malformed("size")));
    assert_eq!(tree.number_at("name"), Err(malformed("name")));
    assert_eq!(tree.number_at("load"), Err(malformed("load")));
    assert_eq!(tree.flag_at("none"), Err(malformed("none")));
    assert_eq!(tree.flag_at("gone"), Err(malformed("gone")));
}

#[test]
fn codecs_are_attached_by_name() {
    let tree = Node::Record(vec![
        entry("took", Node::text("1m 30s")),
        entry("at", Node::text("2021-06-01T12:00:00+03:00")),
        entry("who", Node::text("8d234120-0bda-49b2-b7e0-fbd3912f6cbf")),
        entry("where", Node::text("ftp://files.example.com")),
        entry("when", Node::text("Date: 2021-06-01")),
    ]);
    assert_eq!(decode_span_at(&tree, "took").unwrap().secs(), 90);
    assert_eq!(decode_timestamp_at(&tree, "at").unwrap().encode(), "2021-06-01T09:00:00Z");
    assert_eq!(decode_identifier_at(&tree, "who").unwrap().bytes[0], 0x8d);
    assert_eq!(decode_locator_at(&tree, "where").unwrap().as_str(), "ftp://files.example.com/");
    assert_eq!(decode_date_at(&tree, "when").unwrap(), "2021-06-01");
    assert_eq!(decode_date_at(&tree, "took").unwrap(), "1m 30s");

    let refused = |kind: Kind, name: &str| {
        DecodeError { kind, path: vec![Step::Field(name.to_string())] }
    };
    assert_eq!(decode_span_at(&tree, "who"), Err(refused(Kind::InvalidDuration, "who")));
    assert_eq!(decode_timestamp_at(&tree, "took"), Err(refused(Kind::InvalidTimestamp, "took")));
    assert_eq!(decode_identifier_at(&tree, "at"), Err(refused(Kind::InvalidIdentifier, "at")));
    assert_eq!(decode_locator_at(&tree, "took"), Err(refused(Kind::InvalidUrl, "took")));
    assert_eq!(decode_span_at(&tree, "gone"), Err(malformed("gone")));
    assert_eq!(decode_date_at(&tree, "gone"), Err(malformed("gone")));
}

#[test]
fn the_document_model_holds_what_the_tree_holds() {
    let tree = sample();
    let text = render(Format::Json, &tree).unwrap();
    assert_eq!(
        text,
        r#"{"name":"stream","size":7,"open":true,"none":null,"load":0.5,"items":[-1,[],{}]}"#
    );
    assert_eq!(parse(Format::Json, &text).unwrap(), tree);
}

#[test]
fn names_are_compared_in_full() {
    let names = |names: &[&str]| -> Vec<(String, Node)> {
        names.iter().map(|n| entry(n, Node::Null)).collect()
    };
    assert!(has_distinct_names(&names(&[])));
    assert!(has_distinct_names(&names(&["a"])));
    assert!(has_distinct_names(&names(&["a", "A", "a ", "aa", ""])));
    assert!(!has_distinct_names(&names(&["a", "b", "a"])));
    assert!(!has_distinct_names(&names(&["b", "a", "a"])));
    assert!(!has_distinct_names(&names(&["", "a", ""])));
}
