use wirecodec::event::Event;
use wirecodec::fault::{DecodeError, Kind, Step};
use wirecodec::gift::Gift;
use wirecodec::request::{decode_gifts, encode_gifts, Request, RequestType};
use wirecodec::stream::Stream;
use wirecodec::tariff::{PrivateTariff, PublicTariff};
use wirecodec::tree::Node;
use wirecodec::user::User;

fn text(s: &str) -> Node {
    Node::Text(s.to_string())
}

fn record(fields: Vec<(&str, Node)>) -> Node {
    Node::Record(fields.into_iter().map(|(k, v)| (k.to_string(), v)).collect())
}

fn replace(node: &mut Node, name: &str, value: Node) {
    if let Node::Record(fields) = node {
        for field in fields.iter_mut() {
            if field.0 == name {
                field.1 = value;
                return;
            }
        }
    }
    panic!("no field {name}");
}

fn remove(node: &mut Node, name: &str) {
    if let Node::Record(fields) = node {
        fields.retain(|f| f.0 != name);
    }
}

fn child<'a>(node: &'a mut Node, name: &str) -> &'a mut Node {
    if let Node::Record(fields) = node {
        for field in fields.iter_mut() {
            if field.0 == name {
                return &mut field.1;
            }
        }
    }
    panic!("no field {name}");
}

fn field(name: &str) -> Step {
    Step::Field(name.to_string())
}

fn stream_record() -> Node {
    record(vec![
        ("user_id", text("8d234120-0bda-49b2-b7e0-fbd3912f6cbf")),
        ("is_private", Node::Bool(false)),
        ("settings", Node::Int(45345)),
        ("shard_url", text("https://n3.example.com/sapi")),
        (
            "public_tariff",
            record(vec![
                ("id", Node::Int(1)),
                ("price", Node::Int(100)),
                ("duration", text("1h")),
                ("description", text("test public tariff")),
            ]),
        ),
        (
            "private_tariff",
            record(vec![
                ("client_price", Node::Int(250)),
                ("duration", text("1m")),
                ("description", text("test private tariff")),
            ]),
        ),
    ])
}

fn request_record() -> Node {
    record(vec![
        ("type", text("success")),
        ("stream", stream_record()),
        (
            "gifts",
            Node::List(vec![
                record(vec![
                    ("id", Node::Int(1)),
                    ("price", Node::Int(2)),
                    ("description", text("Gift 1")),
                ]),
                record(vec![
                    ("id", Node::Int(2)),
                    ("price", Node::Int(3)),
                    ("description", text("Gift 2")),
                ]),
            ]),
        ),
        (
            "debug",
            record(vec![("duration", text("234ms")), ("at", text("2019-06-28T08:35:46+00:00"))]),
        ),
    ])
}

#[test]
fn request_decodes_field_by_field() {
    let request = Request::decode(&request_record()).unwrap();
    assert_eq!(request.request_type, RequestType::Success);
    assert_eq!(request.stream.user_id.encode(), "8d234120-0bda-49b2-b7e0-fbd3912f6cbf");
    assert!(!request.stream.is_private);
    assert_eq!(request.stream.settings, 45345);
    assert_eq!(request.stream.shard_url.as_str(), "https://n3.example.com/sapi");
    assert_eq!(request.stream.public_tariff.id, 1);
    assert_eq!(request.stream.public_tariff.price, 100);
    assert_eq!(request.stream.public_tariff.duration.secs(), 3600);
    assert_eq!(request.stream.public_tariff.description, "test public tariff");
    assert_eq!(request.stream.private_tariff.client_price, 250);
    assert_eq!(request.stream.private_tariff.duration.secs(), 60);
    assert_eq!(request.stream.private_tariff.description, "test private tariff");
    assert_eq!(request.gifts.len(), 2);
    assert_eq!(request.gifts[0], Gift { id: 1, price: 2, description: "Gift 1".to_string() });
    assert_eq!(request.gifts[1], Gift { id: 2, price: 3, description: "Gift 2".to_string() });
    assert_eq!(request.debug.duration.nanos(), 234_000_000);
    assert_eq!(request.debug.at.secs(), 1_561_710_946);
}

#[test]
fn request_encodes_in_wire_order_with_normal_texts() {
    let request = Request::decode(&request_record()).unwrap();
    let mut expected = request_record();
    replace(child(&mut expected, "debug"), "at", text("2019-06-28T08:35:46Z"));
    assert_eq!(request.encode(), expected);
}

#[test]
fn request_decodes_from_its_own_encoding() {
    let request = Request::decode(&request_record()).unwrap();
    assert_eq!(Request::decode(&request.encode()), Ok(request));
}

#[test]
fn request_with_failure_tag() {
    let mut doc = request_record();
    replace(&mut doc, "type", text("failure"));
    assert_eq!(Request::decode(&doc).unwrap().request_type, RequestType::Failure);
}

#[test]
fn unknown_tag_is_refused() {
    for tag in ["Success", "SUCCESS", "ok", "", "failure ", "success\n"] {
        let mut doc = request_record();
        replace(&mut doc, "type", text(tag));
        assert_eq!(
            Request::decode(&doc),
            Err(DecodeError { kind: Kind::UnknownVariant, path: vec![field("type")] })
        );
    }
}

#[test]
fn unknown_tag_comes_before_every_other_failure() {
    let mut doc = request_record();
    replace(&mut doc, "type", text("pending"));
    remove(&mut doc, "stream");
    remove(&mut doc, "debug");
    assert_eq!(Request::decode(&doc).unwrap_err().kind, Kind::UnknownVariant);
}

#[test]
fn tag_that_is_no_text_is_malformed() {
    let mut doc = request_record();
    replace(&mut doc, "type", Node::Int(1));
    assert_eq!(
        Request::decode(&doc),
        Err(DecodeError { kind: Kind::MalformedStructure, path: vec![field("type")] })
    );
}

#[test]
fn tags_read_and_write() {
    assert_eq!(RequestType::decode("success"), Ok(RequestType::Success));
    assert_eq!(RequestType::decode("failure"), Ok(RequestType::Failure));
    assert_eq!(RequestType::decode("neither"), Err(Kind::UnknownVariant));
    assert_eq!(RequestType::Success.encode(), "success");
    assert_eq!(RequestType::Failure.encode(), "failure");
}

#[test]
fn stream_refuses_a_locator_that_is_not_absolute() {
    let mut doc = stream_record();
    replace(&mut doc, "shard_url", text("n3.example.com/sapi"));
    assert_eq!(
        Stream::decode(&doc),
        Err(DecodeError { kind: Kind::InvalidUrl, path: vec![field("shard_url")] })
    );
}

#[test]
fn stream_refuses_an_identifier_that_is_not_canonical() {
    let mut doc = stream_record();
    replace(&mut doc, "user_id", text("8d2341200bda49b2b7e0fbd3912f6cbf"));
    assert_eq!(
        Stream::decode(&doc),
        Err(DecodeError { kind: Kind::InvalidIdentifier, path: vec![field("user_id")] })
    );
}

#[test]
fn stream_reports_the_first_field_that_fails() {
    let mut doc = stream_record();
    replace(&mut doc, "user_id", text("nobody"));
    replace(&mut doc, "shard_url", text("nowhere"));
    assert_eq!(Stream::decode(&doc).unwrap_err().kind, Kind::InvalidIdentifier);
}

#[test]
fn failures_carry_the_path_from_the_top() {
    let mut doc = request_record();
    replace(child(&mut doc, "stream"), "user_id", text("nobody"));
    assert_eq!(
        Request::decode(&doc),
        Err(DecodeError {
            kind: Kind::InvalidIdentifier,
            path: vec![field("stream"), field("user_id")]
        })
    );

    let mut doc = request_record();
    replace(child(child(&mut doc, "stream"), "private_tariff"), "duration", text("a while"));
    assert_eq!(
        Request::decode(&doc),
        Err(DecodeError {
            kind: Kind::InvalidDuration,
            path: vec![field("stream"), field("private_tariff"), field("duration")]
        })
    );

    let mut doc = request_record();
    replace(child(&mut doc, "debug"), "at", text("a while ago"));
    assert_eq!(
        Request::decode(&doc),
        Err(DecodeError {
            kind: Kind::InvalidTimestamp,
            path: vec![field("debug"), field("at")]
        })
    );

    let mut doc = request_record();
    if let Node::List(gifts) = child(&mut doc, "gifts") {
        replace(&mut gifts[1], "price", text("free"));
    }
    assert_eq!(
        Request::decode(&doc),
        Err(DecodeError {
            kind: Kind::MalformedStructure,
            path: vec![field("gifts"), Step::Index(1), field("price")]
        })
    );
}

#[test]
fn missing_and_misshapen_fields_are_malformed() {
    let malformed =
        |path: Vec<Step>| Err(DecodeError { kind: Kind::MalformedStructure, path });

    let mut doc = request_record();
    remove(&mut doc, "debug");
    assert_eq!(Request::decode(&doc), malformed(vec![field("debug")]));

    let mut doc = request_record();
    remove(child(&mut doc, "stream"), "settings");
    assert_eq!(Request::decode(&doc), malformed(vec![field("stream"), field("settings")]));

    let mut doc = request_record();
    replace(&mut doc, "gifts", text("none"));
    assert_eq!(Request::decode(&doc), malformed(vec![field("gifts")]));

    let mut doc = request_record();
    replace(&mut doc, "stream", Node::List(vec![]));
    assert_eq!(Request::decode(&doc), malformed(vec![field("stream")]));

    assert_eq!(Request::decode(&Node::Null), malformed(vec![]));
    assert_eq!(Request::decode(&Node::List(vec![])), malformed(vec![]));
}

#[test]
fn numbers_must_fit_32_bits_without_a_sign() {
    let gift = |price: Node| {
        record(vec![("id", Node::Int(1)), ("price", price), ("description", text("g"))])
    };
    assert_eq!(Gift::decode(&gift(Node::Int(0))).unwrap().price, 0);
    assert_eq!(Gift::decode(&gift(Node::Int(4_294_967_295))).unwrap().price, u32::MAX);
    for price in [
        Node::Int(-1),
        Node::Int(4_294_967_296),
        Node::Real("2.5".to_string()),
        Node::Null,
        Node::Bool(true),
    ] {
        assert_eq!(
            Gift::decode(&gift(price)),
            Err(DecodeError { kind: Kind::MalformedStructure, path: vec![field("price")] })
        );
    }
}

#[test]
fn fields_outside_the_schema_are_passed_over() {
    let doc = record(vec![
        ("note", Node::Real("1.5".to_string())),
        ("id", Node::Int(7)),
        ("price", Node::Int(8)),
        ("description", text("g")),
        ("tags", Node::List(vec![Node::Null])),
    ]);
    assert_eq!(Gift::decode(&doc), Ok(Gift { id: 7, price: 8, description: "g".to_string() }));
}

#[test]
fn the_first_of_two_fields_of_one_name_counts() {
    let doc = record(vec![
        ("id", Node::Int(7)),
        ("id", Node::Int(9)),
        ("price", Node::Int(8)),
        ("description", text("g")),
    ]);
    assert_eq!(Gift::decode(&doc).unwrap().id, 7);
}

#[test]
fn gifts_keep_their_order() {
    let gifts: Vec<Gift> = (0..5)
        .rev()
        .map(|i| Gift { id: i, price: 10 * i, description: format!("Gift {i}") })
        .collect();
    let node = encode_gifts(&gifts);
    assert_eq!(decode_gifts(&node), Ok(gifts));
    assert_eq!(decode_gifts(&Node::List(vec![])), Ok(vec![]));
    assert_eq!(encode_gifts(&Vec::new()), Node::List(vec![]));
}

#[test]
fn tariffs_are_two_records() {
    let public = record(vec![
        ("id", Node::Int(1)),
        ("price", Node::Int(100)),
        ("duration", text("30s")),
        ("description", text("p")),
    ]);
    let tariff = PublicTariff::decode(&public).unwrap();
    assert_eq!(tariff.duration.secs(), 30);
    assert_eq!(PublicTariff::decode(&tariff.encode()), Ok(tariff));
    assert_eq!(
        PrivateTariff::decode(&public),
        Err(DecodeError { kind: Kind::MalformedStructure, path: vec![field("client_price")] })
    );
    let private = record(vec![
        ("client_price", Node::Int(250)),
        ("duration", text("2h")),
        ("description", text("q")),
    ]);
    let tariff = PrivateTariff::decode(&private).unwrap();
    assert_eq!(tariff.duration.secs(), 7200);
    assert_eq!(tariff.encode(), private);
}

#[test]
fn event_date_is_tagged_on_the_wire() {
    let event = Event { name: "Event 1".to_string(), date: "2021-06-01".to_string() };
    let wire = event.encode();
    assert_eq!(wire, record(vec![("name", text("Event 1")), ("date", text("Date: 2021-06-01"))]));
    assert_eq!(Event::decode(&wire), Ok(event));
}

#[test]
fn event_date_without_the_tag_is_taken_as_it_stands() {
    let wire = record(vec![("name", text("Event 2")), ("date", text("2021-06-02"))]);
    assert_eq!(
        Event::decode(&wire),
        Ok(Event { name: "Event 2".to_string(), date: "2021-06-02".to_string() })
    );
}

#[test]
fn user_round_trip() {
    let user = User {
        name: "John".to_string(),
        email: "johndoe321@gmail.com".to_string(),
        birthdate: "5.06.97".to_string(),
    };
    let wire = user.encode();
    assert_eq!(
        wire,
        record(vec![
            ("name", text("John")),
            ("email", text("johndoe321@gmail.com")),
            ("birthdate", text("5.06.97")),
        ])
    );
    assert_eq!(User::decode(&wire), Ok(user));
    assert_eq!(
        User::decode(&record(vec![("name", text("John"))])),
        Err(DecodeError { kind: Kind::MalformedStructure, path: vec![field("email")] })
    );
}
