use wirecodec::event::Event;
use wirecodec::fault::{DecodeError, Kind, Obstacle, RenderError, Step};
use wirecodec::pipeline::{
    read_request, reads_as, run, write_request, writes_again, Output, PipelineError,
};
use wirecodec::request::Request;
use wirecodec::transcode::{parse, render, Format};
use wirecodec::tree::Node;

const DOCUMENT: &str = r#"{
  "type": "success",
  "stream": {
    "user_id": "8d234120-0bda-49b2-b7e0-fbd3912f6cbf",
    "is_private": false,
    "settings": 45345,
    "shard_url": "https://n3.example.com/sapi",
    "public_tariff": {
      "id": 1,
      "price": 100,
      "duration": "1h",
      "description": "test public tariff"
    },
    "private_tariff": {
      "client_price": 250,
      "duration": "1m",
      "description": "test private tariff"
    }
  },
  "gifts": [
    { "id": 1, "price": 2, "description": "Gift 1" },
    { "id": 2, "price": 3, "description": "Gift 2" }
  ],
  "debug": {
    "duration": "234ms",
    "at": "2019-06-28T08:35:46+00:00"
  }
}"#;

fn with(document: &str, from: &str, to: &str) -> String {
    assert!(document.contains(from));
    document.replacen(from, to, 1)
}

#[test]
fn test_1() {
    let content = DOCUMENT;
    let node = parse(Format::Json, content).unwrap();
    let request: Request = Request::decode(&node).unwrap();
    assert_eq!(request.stream.private_tariff.client_price, 250);
    assert_eq!(
        request.stream.user_id.bytes,
        uuid::Uuid::parse_str("8d234120-0bda-49b2-b7e0-fbd3912f6cbf").unwrap().into_bytes()
    );
    assert_eq!(request.gifts[0].id, 1);
    assert_eq!(request.gifts[0].price, 2);
    assert_eq!(request.gifts[0].description, "Gift 1");
}

#[test]
fn run_gives_the_request_and_both_renderings() {
    let out = run(DOCUMENT).unwrap();
    assert_eq!(out.decoded, read_request(DOCUMENT).unwrap());
    assert_eq!(out.as_yaml, write_request(&out.decoded, Format::Yaml).unwrap());
    assert_eq!(out.as_toml, write_request(&out.decoded, Format::Toml).unwrap());
    assert!(out.as_yaml.contains("client_price: 250"));
    assert!(out.as_yaml.contains("user_id: 8d234120-0bda-49b2-b7e0-fbd3912f6cbf"));
    assert!(out.as_toml.contains("client_price = 250"));
    assert!(out.as_toml.contains("[[gifts]]"));
    assert!(out.as_toml.contains("[stream.private_tariff]"));
    assert!(out.as_toml.contains("type = \"success\""));
}

#[test]
fn renderings_decode_to_the_same_values() {
    let out = run(DOCUMENT).unwrap();
    for (format, text) in [(Format::Yaml, &out.as_yaml), (Format::Toml, &out.as_toml)] {
        let again = Request::decode(&parse(format, text).unwrap()).unwrap();
        assert_eq!(again.stream.user_id.encode(), "8d234120-0bda-49b2-b7e0-fbd3912f6cbf");
        assert_eq!(again.stream.private_tariff.client_price, 250);
        assert_eq!(again.gifts.len(), 2);
        assert_eq!(again.gifts[0].id, 1);
        assert_eq!(again.gifts[0].price, 2);
        assert_eq!(again.gifts[0].description, "Gift 1");
        assert_eq!(again, out.decoded);
    }
}

#[test]
fn the_output_of_a_run_round_trips() {
    let out = run(DOCUMENT).unwrap();
    assert!(out.round_trips());
    assert!(reads_as(Format::Json, DOCUMENT, &out.decoded));
    assert!(reads_as(Format::Yaml, &out.as_yaml, &out.decoded));
    assert!(!reads_as(Format::Json, &out.as_yaml, &out.decoded));
    assert!(!reads_as(Format::Toml, "", &out.decoded));

    let other = read_request(&with(DOCUMENT, "\"Gift 2\"", "\"Gift two\"")).unwrap();
    assert!(!reads_as(Format::Json, DOCUMENT, &other));
    let mixed = Output {
        decoded: other,
        as_yaml: out.as_yaml.clone(),
        as_toml: out.as_toml.clone(),
    };
    assert!(!mixed.round_trips());
}

#[test]
fn sameness_looks_at_every_field() {
    let request = read_request(DOCUMENT).unwrap();
    assert!(request.same_as(&request.clone()));
    let changes = [
        ("\"success\"", "\"failure\""),
        ("8d234120", "8d234121"),
        ("\"is_private\": false", "\"is_private\": true"),
        ("45345", "45346"),
        ("/sapi", "/sapi2"),
        ("\"id\": 1,\n      \"price\": 100", "\"id\": 2,\n      \"price\": 100"),
        ("\"price\": 100", "\"price\": 101"),
        ("\"1h\"", "\"2h\""),
        ("test public tariff", "test public tariffs"),
        ("250", "251"),
        ("\"1m\"", "\"1m 1ns\""),
        ("test private tariff", "Test private tariff"),
        ("\"id\": 1, \"price\": 2", "\"id\": 3, \"price\": 2"),
        ("\"price\": 3", "\"price\": 4"),
        ("\"Gift 1\"", "\"Gift I\""),
        (", \"description\": \"Gift 1\" },", ", \"description\": \"Gift 1\" }, { \"id\": 1, \"price\": 2, \"description\": \"Gift 1\" },"),
        ("234ms", "235ms"),
        ("08:35:46", "08:35:47"),
    ];
    for (from, to) in changes {
        let other = read_request(&with(DOCUMENT, from, to)).unwrap();
        assert!(!request.same_as(&other), "{from} -> {to}");
        assert!(!other.same_as(&request), "{from} -> {to}");
        assert_ne!(request, other);
        assert!(other.same_as(&other));
    }
    let same = read_request(&with(DOCUMENT, "+00:00", "Z")).unwrap();
    assert!(request.same_as(&same));
}

#[test]
fn every_format_reads_what_another_wrote() {
    let request = read_request(DOCUMENT).unwrap();
    let tree = request.encode();
    for x in [Format::Json, Format::Yaml, Format::Toml] {
        for y in [Format::Json, Format::Yaml, Format::Toml] {
            let first = parse(x, &render(x, &tree).unwrap()).unwrap();
            let second = parse(y, &render(y, &first).unwrap()).unwrap();
            let third = parse(x, &render(x, &second).unwrap()).unwrap();
            assert_eq!(third, first);
            assert_eq!(first, tree);
        }
    }
}

#[test]
fn a_written_request_is_written_the_same_again() {
    let request = read_request(DOCUMENT).unwrap();
    for format in [Format::Json, Format::Toml, Format::Yaml] {
        let text = write_request(&request, format).unwrap();
        assert!(writes_again(format, &text));
        assert!(reads_as(format, &text, &request));
    }
    assert!(!writes_again(Format::Json, DOCUMENT));
    assert!(!writes_again(Format::Json, "{}"));
    assert!(!writes_again(Format::Toml, "type ="));
}

#[test]
fn run_refuses_a_duration_that_overflows() {
    let doc = with(DOCUMENT, "\"234ms\"", "\"18446744073709551615s 1000ms\"");
    assert_eq!(
        run(&doc),
        Err(PipelineError::Decode(DecodeError {
            kind: Kind::InvalidDuration,
            path: vec![Step::Field("debug".to_string()), Step::Field("duration".to_string())]
        }))
    );
}

#[test]
fn json_and_toml_write_the_same_bytes_again() {
    let tree = read_request(DOCUMENT).unwrap().encode();
    for format in [Format::Json, Format::Toml] {
        let once = render(format, &tree).unwrap();
        let twice = render(format, &parse(format, &once).unwrap()).unwrap();
        assert_eq!(twice, once);
    }
}

#[test]
fn yaml_writes_the_same_values_again() {
    let tree = read_request(DOCUMENT).unwrap().encode();
    let once = render(Format::Yaml, &tree).unwrap();
    let read = parse(Format::Yaml, &once).unwrap();
    assert_eq!(read, tree);
    assert_eq!(parse(Format::Yaml, &render(Format::Yaml, &read).unwrap()).unwrap(), tree);
}

#[test]
fn json_keeps_the_order_of_fields() {
    let event = Event { name: "Event 1".to_string(), date: "2021-06-01".to_string() };
    let json = render(Format::Json, &event.encode()).unwrap();
    assert_eq!(json, r#"{"name":"Event 1","date":"Date: 2021-06-01"}"#);
    assert_eq!(Event::decode(&parse(Format::Json, &json).unwrap()), Ok(event));
}

#[test]
fn run_refuses_what_is_no_json() {
    assert!(matches!(run(""), Err(PipelineError::Parse(_))));
    assert!(matches!(run("{"), Err(PipelineError::Parse(_))));
    assert!(matches!(run("type: success"), Err(PipelineError::Parse(_))));
    assert!(matches!(read_request("[1, 2"), Err(PipelineError::Parse(_))));
}

#[test]
fn run_refuses_an_unknown_tag() {
    let doc = with(DOCUMENT, "\"success\"", "\"pending\"");
    assert_eq!(
        run(&doc),
        Err(PipelineError::Decode(DecodeError {
            kind: Kind::UnknownVariant,
            path: vec![Step::Field("type".to_string())]
        }))
    );
}

#[test]
fn run_refuses_each_codec_failure_at_its_field() {
    let cases = [
        ("8d234120-0bda-49b2-b7e0-fbd3912f6cbf", "8d234120", Kind::InvalidIdentifier, vec!["stream", "user_id"]),
        ("https://n3.example.com/sapi", "//n3.example.com/sapi", Kind::InvalidUrl, vec!["stream", "shard_url"]),
        ("\"1h\"", "\"1 hour and a bit\"", Kind::InvalidDuration, vec!["stream", "public_tariff", "duration"]),
        ("2019-06-28T08:35:46+00:00", "2019-06-28", Kind::InvalidTimestamp, vec!["debug", "at"]),
        ("\"settings\": 45345", "\"settings\": -1", Kind::MalformedStructure, vec!["stream", "settings"]),
        ("\"settings\": 45345", "\"settings\": 1.5", Kind::MalformedStructure, vec!["stream", "settings"]),
        ("\"is_private\": false", "\"is_private\": 0", Kind::MalformedStructure, vec!["stream", "is_private"]),
    ];
    for (from, to, kind, path) in cases {
        let doc = with(DOCUMENT, from, to);
        let path = path.into_iter().map(|name| Step::Field(name.to_string())).collect();
        assert_eq!(run(&doc), Err(PipelineError::Decode(DecodeError { kind, path })));
    }
}

#[test]
fn every_failure_has_its_kind() {
    assert_eq!(run("{").unwrap_err().kind(), Kind::MalformedStructure);
    let doc = with(DOCUMENT, "\"success\"", "\"pending\"");
    assert_eq!(run(&doc).unwrap_err().kind(), Kind::UnknownVariant);
    let doc = with(DOCUMENT, "\"1m\"", "\"1 moment\"");
    assert_eq!(run(&doc).unwrap_err().kind(), Kind::InvalidDuration);
    let unwritable = PipelineError::Render(RenderError::Unfit(Obstacle::DuplicateField));
    assert_eq!(unwritable.kind(), Kind::FormatRenderError);
}

#[test]
fn run_gives_nothing_in_part() {
    let doc = with(DOCUMENT, "\"price\": 3", "\"price\": \"3\"");
    assert_eq!(
        run(&doc),
        Err(PipelineError::Decode(DecodeError {
            kind: Kind::MalformedStructure,
            path: vec![
                Step::Field("gifts".to_string()),
                Step::Index(1),
                Step::Field("price".to_string())
            ]
        }))
    );
}

#[test]
fn run_passes_over_fields_outside_the_schema() {
    let doc = with(DOCUMENT, "\"type\": \"success\",", "\"type\": \"success\", \"load\": 0.75,");
    assert_eq!(run(&doc).unwrap().decoded, read_request(DOCUMENT).unwrap());
}

#[test]
fn parse_reads_every_kind_of_value() {
    let node = parse(
        Format::Json,
        r#"{"n": null, "b": true, "i": -7, "u": 18446744073709551615, "r": 2.5, "t": "x", "l": [1, [2]], "o": {}}"#,
    )
    .unwrap();
    assert_eq!(
        node,
        Node::Record(vec![
            ("n".to_string(), Node::Null),
            ("b".to_string(), Node::Bool(true)),
            ("i".to_string(), Node::Int(-7)),
            ("u".to_string(), Node::Int(18446744073709551615)),
            ("r".to_string(), Node::Real("2.5".to_string())),
            ("t".to_string(), Node::Text("x".to_string())),
            ("l".to_string(), Node::List(vec![Node::Int(1), Node::List(vec![Node::Int(2)])])),
            ("o".to_string(), Node::Record(vec![])),
        ])
    );
}

#[test]
fn parse_reads_yaml_and_toml() {
    let expected = Node::Record(vec![
        ("name".to_string(), Node::Text("Event 1".to_string())),
        ("seats".to_string(), Node::Int(12)),
        ("open".to_string(), Node::Bool(true)),
        ("days".to_string(), Node::List(vec![Node::Int(1), Node::Int(2)])),
    ]);
    let yaml = "name: Event 1\nseats: 12\nopen: true\ndays:\n- 1\n- 2\n";
    assert_eq!(parse(Format::Yaml, yaml).unwrap(), expected);
    let toml = "name = \"Event 1\"\nseats = 12\nopen = true\ndays = [1, 2]\n";
    assert_eq!(parse(Format::Toml, toml).unwrap(), expected);
    assert!(parse(Format::Toml, "name = ").is_err());
    assert!(parse(Format::Yaml, "name: [").is_err());
}

#[test]
fn render_writes_each_format_its_own_way() {
    let tree = Node::Record(vec![
        ("name".to_string(), Node::Text("Event 1".to_string())),
        ("seats".to_string(), Node::Int(12)),
        ("days".to_string(), Node::List(vec![Node::Int(1), Node::Int(2)])),
    ]);
    assert_eq!(
        render(Format::Json, &tree).unwrap(),
        r#"{"name":"Event 1","seats":12,"days":[1,2]}"#
    );
    assert_eq!(render(Format::Yaml, &tree).unwrap(), "name: Event 1\nseats: 12\ndays:\n- 1\n- 2\n");
    assert_eq!(
        render(Format::Toml, &tree).unwrap(),
        "name = \"Event 1\"\nseats = 12\ndays = [1, 2]\n"
    );
}

#[test]
fn render_finds_what_no_format_is_handed() {
    let wide = Node::Record(vec![("n".to_string(), Node::Int(18446744073709551616))]);
    let low = Node::Int(-9223372036854775809);
    let twice = Node::Record(vec![
        ("a".to_string(), Node::Int(1)),
        ("b".to_string(), Node::Real("one and a half".to_string())),
        ("a".to_string(), Node::Int(2)),
    ]);
    for format in [Format::Json, Format::Yaml, Format::Toml] {
        for spelling in ["2.50", "+2.5", "5", "two", "", "0x10", "1e3", "2.5 "] {
            let real = Node::List(vec![Node::Int(1), Node::Real(spelling.to_string())]);
            assert_eq!(render(format, &real), Err(RenderError::Unfit(Obstacle::NumberSpelling)));
        }
        assert_eq!(render(format, &wide), Err(RenderError::Unfit(Obstacle::NumberOutOfRange)));
        assert_eq!(render(format, &low), Err(RenderError::Unfit(Obstacle::NumberOutOfRange)));
        assert_eq!(render(format, &twice), Err(RenderError::Unfit(Obstacle::DuplicateField)));
    }
    assert!(render(Format::Json, &Node::Int(18446744073709551615)).is_ok());
    assert!(render(Format::Json, &Node::Int(-9223372036854775808)).is_ok());
}

#[test]
fn numbers_with_a_fraction_are_written_as_they_were_read() {
    let text = r#"{"load":0.75,"scale":[1e+300,-2.5,1.0]}"#;
    let tree = parse(Format::Json, text).unwrap();
    assert_eq!(
        tree,
        Node::Record(vec![
            ("load".to_string(), Node::Real("0.75".to_string())),
            (
                "scale".to_string(),
                Node::List(vec![
                    Node::Real("1e+300".to_string()),
                    Node::Real("-2.5".to_string()),
                    Node::Real("1.0".to_string()),
                ])
            ),
        ])
    );
    assert_eq!(render(Format::Json, &tree).unwrap(), text);
    for format in [Format::Yaml, Format::Toml] {
        assert_eq!(parse(format, &render(format, &tree).unwrap()).unwrap(), tree);
    }
}

#[test]
fn toml_leaves_out_fields_that_hold_nothing() {
    let tree = Node::Record(vec![
        ("name".to_string(), Node::Text("x".to_string())),
        ("note".to_string(), Node::Null),
        (
            "inner".to_string(),
            Node::Record(vec![
                ("gone".to_string(), Node::Null),
                ("kept".to_string(), Node::Int(1)),
                ("list".to_string(), Node::List(vec![Node::Record(vec![("x".to_string(), Node::Null)])])),
            ]),
        ),
    ]);
    let kept = Node::Record(vec![
        ("name".to_string(), Node::Text("x".to_string())),
        (
            "inner".to_string(),
            Node::Record(vec![
                ("kept".to_string(), Node::Int(1)),
                ("list".to_string(), Node::List(vec![Node::Record(vec![])])),
            ]),
        ),
    ]);
    assert_eq!(tree.without_nulls(), kept);
    assert_eq!(kept.without_nulls(), kept);
    let toml = render(Format::Toml, &tree).unwrap();
    assert!(!toml.contains("note"));
    assert!(!toml.contains("gone"));
    assert_eq!(toml, render(Format::Toml, &kept).unwrap());
    assert_eq!(parse(Format::Toml, &toml).unwrap(), kept);
    assert_eq!(
        render(Format::Json, &tree).unwrap(),
        r#"{"name":"x","note":null,"inner":{"gone":null,"kept":1,"list":[{"x":null}]}}"#
    );
    assert_eq!(parse(Format::Yaml, &render(Format::Yaml, &tree).unwrap()).unwrap(), tree);
}

#[test]
fn toml_refuses_what_it_has_no_way_to_write() {
    let null = Node::Record(vec![("gone".to_string(), Node::List(vec![Node::Null]))]);
    assert!(matches!(render(Format::Toml, &null), Err(RenderError::Refused(_))));
    assert!(matches!(render(Format::Toml, &Node::Int(1)), Err(RenderError::Refused(_))));
    let wide = Node::Record(vec![("n".to_string(), Node::Int(18446744073709551615))]);
    assert!(matches!(render(Format::Toml, &wide), Err(RenderError::Refused(_))));
    assert_eq!(render(Format::Json, &wide).unwrap(), r#"{"n":18446744073709551615}"#);
    assert_eq!(render(Format::Json, &null).unwrap(), r#"{"gone":[null]}"#);
}
