use telraam::decode::{
    bool_field, from_yes_no, number_field, numbers_field, object, optional_time_field,
    signed_field, text_field, time_field, to_yes_no, unsigned_field, yes_no_field,
};
use telraam::error::DecodeError;
use telraam::geo::read_geojson;
use telraam::json::{Json, JsonNumber};
use telraam::response::{
    Camera, CamerasResponse, Report, SegmentResponse, Status, TrafficResponse,
    TrafficSnapshotResponse, WelcomeResponse,
};
use telraam::time::Timestamp;

fn text(s: &str) -> Json {
    Json::Text(s.to_string())
}

fn entry(name: &str, value: Json) -> (String, Json) {
    (name.to_string(), value)
}

fn invalid(name: &str) -> DecodeError {
    DecodeError::InvalidType(name.to_string())
}

fn missing(name: &str) -> DecodeError {
    DecodeError::MissingField(name.to_string())
}

#[test]
fn parse_gives_the_tree_of_the_text() {
    let tree = Json::parse(r#"{"b": [1, -2, 1.5, "x", true, null], "a": {}}"#).expect("json");
    let expected = Json::Object(vec![
        entry("a", Json::Object(vec![])),
        entry(
            "b",
            Json::Array(vec![
                Json::Number(JsonNumber::Unsigned(1)),
                Json::Number(JsonNumber::Signed(-2)),
                Json::Number(JsonNumber::Real(1.5f64.to_bits())),
                text("x"),
                Json::Bool(true),
                Json::Null,
            ]),
        ),
    ]);
    assert_eq!(expected, tree);
}

#[test]
fn parse_keeps_large_integers_exact() {
    let tree = Json::parse("[18446744073709551615, -9223372036854775808]").expect("json");
    assert_eq!(
        Json::Array(vec![
            Json::Number(JsonNumber::Unsigned(u64::MAX)),
            Json::Number(JsonNumber::Signed(i64::MIN)),
        ]),
        tree
    );
}

#[test]
fn parse_refuses_what_is_no_json() {
    assert!(matches!(Json::parse(""), Err(DecodeError::Syntax(_))));
    assert!(matches!(Json::parse("{"), Err(DecodeError::Syntax(_))));
    assert!(matches!(
        Json::parse("{} trailing"),
        Err(DecodeError::Syntax(_))
    ));
}

#[test]
fn get_finds_the_first_entry_of_a_name() {
    let fields = vec![
        entry("a", Json::Bool(true)),
        entry("b", Json::Null),
        entry("a", Json::Bool(false)),
    ];
    assert_eq!(Some(&Json::Bool(true)), Json::get(&fields, "a"));
    assert_eq!(Some(&Json::Null), Json::get(&fields, "b"));
    assert_eq!(None, Json::get(&fields, "c"));
    assert_eq!(None, Json::get(&Vec::new(), "a"));
}

#[test]
fn object_takes_objects_only() {
    let tree = Json::Object(vec![entry("a", Json::Null)]);
    assert_eq!(1, object(&tree).expect("an object").len());
    assert_eq!(Err(DecodeError::NotAnObject), object(&Json::Null).map(|_| ()));
    assert_eq!(
        Err(DecodeError::NotAnObject),
        object(&Json::Array(vec![])).map(|_| ())
    );
}

#[test]
fn fields_are_read_by_name_and_type() {
    let fields = vec![
        entry("t", text("hello")),
        entry("b", Json::Bool(true)),
        entry("u", Json::Number(JsonNumber::Unsigned(7))),
        entry("s", Json::Number(JsonNumber::Signed(-7))),
        entry("r", Json::Number(JsonNumber::Real(0.5f64.to_bits()))),
        entry(
            "l",
            Json::Array(vec![
                Json::Number(JsonNumber::Unsigned(1)),
                Json::Number(JsonNumber::Real(2.5f64.to_bits())),
            ]),
        ),
        entry("n", Json::Null),
    ];
    assert_eq!(Ok("hello".to_string()), text_field(&fields, "t"));
    assert_eq!(Err(invalid("b")), text_field(&fields, "b"));
    assert_eq!(Err(missing("x")), text_field(&fields, "x"));
    assert_eq!(Ok(true), bool_field(&fields, "b"));
    assert_eq!(Err(invalid("t")), bool_field(&fields, "t"));
    assert_eq!(Err(missing("x")), bool_field(&fields, "x"));
    assert_eq!(Ok(7), unsigned_field(&fields, "u"));
    assert_eq!(Err(invalid("s")), unsigned_field(&fields, "s"));
    assert_eq!(Err(invalid("r")), unsigned_field(&fields, "r"));
    assert_eq!(Err(missing("x")), unsigned_field(&fields, "x"));
    assert_eq!(Ok(7), signed_field(&fields, "u"));
    assert_eq!(Ok(-7), signed_field(&fields, "s"));
    assert_eq!(Err(invalid("r")), signed_field(&fields, "r"));
    assert_eq!(Err(invalid("t")), signed_field(&fields, "t"));
    assert_eq!(Ok(JsonNumber::Unsigned(7)), number_field(&fields, "u"));
    assert_eq!(
        Ok(JsonNumber::Real(0.5f64.to_bits())),
        number_field(&fields, "r")
    );
    assert_eq!(Err(invalid("n")), number_field(&fields, "n"));
    assert_eq!(
        Ok(vec![
            JsonNumber::Unsigned(1),
            JsonNumber::Real(2.5f64.to_bits())
        ]),
        numbers_field(&fields, "l")
    );
    assert_eq!(Err(invalid("u")), numbers_field(&fields, "u"));
    assert_eq!(Err(missing("x")), numbers_field(&fields, "x"));
}

#[test]
fn integers_must_fit_their_field() {
    let fields = vec![
        entry("big", Json::Number(JsonNumber::Unsigned(u64::MAX))),
        entry("plus", Json::Number(JsonNumber::Signed(5))),
        entry("low", Json::Number(JsonNumber::Signed(i64::MIN))),
    ];
    assert_eq!(Ok(usize::MAX), unsigned_field(&fields, "big"));
    assert_eq!(Err(invalid("big")), signed_field(&fields, "big"));
    assert_eq!(Ok(5), unsigned_field(&fields, "plus"));
    assert_eq!(Ok(5), signed_field(&fields, "plus"));
    assert_eq!(Ok(isize::MIN), signed_field(&fields, "low"));
    assert_eq!(Err(invalid("low")), unsigned_field(&fields, "low"));
}

#[test]
fn a_list_of_numbers_holds_numbers_only() {
    let fields = vec![entry(
        "l",
        Json::Array(vec![Json::Number(JsonNumber::Unsigned(1)), text("2")]),
    )];
    assert_eq!(Err(invalid("l")), numbers_field(&fields, "l"));
    let empty = vec![entry("l", Json::Array(vec![]))];
    assert_eq!(Ok(vec![]), numbers_field(&empty, "l"));
}

#[test]
fn times_are_read_from_texts() {
    let fields = vec![
        entry("at", text("2020-10-30T07:00:00.000Z")),
        entry("bad", text("soon")),
        entry("none", Json::Null),
        entry("num", Json::Number(JsonNumber::Unsigned(0))),
    ];
    let at = Timestamp {
        secs: 1604041200,
        nanos: 0,
    };
    assert_eq!(Ok(at), time_field(&fields, "at"));
    assert_eq!(
        Err(DecodeError::InvalidTimestamp("soon".to_string())),
        time_field(&fields, "bad")
    );
    assert_eq!(Err(invalid("none")), time_field(&fields, "none"));
    assert_eq!(Err(invalid("num")), time_field(&fields, "num"));
    assert_eq!(Err(missing("x")), time_field(&fields, "x"));
    assert_eq!(Ok(Some(at)), optional_time_field(&fields, "at"));
    assert_eq!(Ok(None), optional_time_field(&fields, "none"));
    assert_eq!(
        Err(DecodeError::InvalidTimestamp("soon".to_string())),
        optional_time_field(&fields, "bad")
    );
    assert_eq!(Err(invalid("num")), optional_time_field(&fields, "num"));
    assert_eq!(Err(missing("x")), optional_time_field(&fields, "x"));
}

#[test]
fn yes_and_no_are_the_only_truth_values() {
    assert_eq!(Ok(true), from_yes_no("yes"));
    assert_eq!(Ok(false), from_yes_no("no"));
    assert_eq!(
        Err(DecodeError::UnknownVariant("Yes".to_string())),
        from_yes_no("Yes")
    );
    assert_eq!(
        Err(DecodeError::UnknownVariant("".to_string())),
        from_yes_no("")
    );
    assert_eq!(
        Err(DecodeError::UnknownVariant("true".to_string())),
        from_yes_no("true")
    );
    assert_eq!("yes", to_yes_no(true));
    assert_eq!("no", to_yes_no(false));
    assert_eq!(Ok(true), from_yes_no(to_yes_no(true)));
    assert_eq!(Ok(false), from_yes_no(to_yes_no(false)));
    let fields = vec![
        entry("y", text("yes")),
        entry("n", text("no")),
        entry("b", Json::Bool(true)),
        entry("o", text("on")),
    ];
    assert_eq!(Ok(true), yes_no_field(&fields, "y"));
    assert_eq!(Ok(false), yes_no_field(&fields, "n"));
    assert_eq!(Err(invalid("b")), yes_no_field(&fields, "b"));
    assert_eq!(
        Err(DecodeError::UnknownVariant("on".to_string())),
        yes_no_field(&fields, "o")
    );
    assert_eq!(Err(missing("x")), yes_no_field(&fields, "x"));
}

#[test]
fn status_is_read_from_the_entries_of_a_body() {
    let fields = vec![
        entry("status_code", Json::Number(JsonNumber::Unsigned(200))),
        entry("message", text("ok")),
        entry("other", Json::Null),
    ];
    let status = Status::from_fields(&fields).expect("a status");
    assert_eq!(200, status.status_code);
    assert_eq!("ok", status.message);
    let short = vec![entry("msg", text("hi"))];
    let status = Status::from_fields(&short).expect("a status");
    assert_eq!(0, status.status_code);
    assert_eq!("hi", status.message);
    let null_code = vec![entry("status_code", Json::Null), entry("message", text("ok"))];
    assert_eq!(
        Err(invalid("status_code")),
        Status::from_fields(&null_code).map(|_| ())
    );
    let bad_msg = vec![entry("msg", Json::Null)];
    assert_eq!(Err(invalid("msg")), Status::from_fields(&bad_msg).map(|_| ()));
}

#[test]
fn responses_are_read_from_trees() {
    let tree = Json::Object(vec![entry("message", text("ok"))]);
    assert!(WelcomeResponse::from_json(&tree).is_ok());
    assert_eq!(
        Err(DecodeError::NotAnObject),
        WelcomeResponse::from_json(&Json::Null).map(|_| ())
    );
    let tree = Json::Object(vec![
        entry("message", text("ok")),
        entry("report", Json::Array(vec![])),
        entry("cameras", Json::Array(vec![])),
    ]);
    assert!(TrafficResponse::from_json(&tree)
        .expect("a response")
        .reports()
        .expect("status is good")
        .is_empty());
    assert!(CamerasResponse::from_json(&tree)
        .expect("a response")
        .cameras()
        .expect("status is good")
        .is_empty());
    let tree = Json::Object(vec![
        entry("message", text("ok")),
        entry("report", Json::Null),
        entry("camera", Json::Null),
    ]);
    assert_eq!(
        Err(invalid("report")),
        TrafficResponse::from_json(&tree).map(|_| ())
    );
    assert_eq!(
        Err(invalid("camera")),
        CamerasResponse::from_json(&tree).map(|_| ())
    );
}

#[test]
fn status_is_looked_at_before_the_payload() {
    let tree = Json::Object(vec![entry("report", Json::Null)]);
    assert_eq!(
        Err(missing("message")),
        TrafficResponse::from_json(&tree).map(|_| ())
    );
    let geo = read_geojson("{}");
    assert_eq!(
        Err(missing("message")),
        TrafficSnapshotResponse::from_parts(&tree, geo).map(|_| ())
    );
}

#[test]
fn geojson_responses_are_put_together_from_their_parts() {
    let tree = Json::Object(vec![entry("message", text("ok"))]);
    let point = r#"{"type": "Point", "coordinates": [1.0, 2.0]}"#;
    let snapshot =
        TrafficSnapshotResponse::from_parts(&tree, read_geojson(point)).expect("a snapshot");
    assert_eq!(
        &point.parse::<geojson::GeoJson>().unwrap(),
        snapshot.snapshot().expect("status is good")
    );
    let segment = SegmentResponse::from_parts(&tree, read_geojson(point)).expect("a segment");
    assert_eq!(
        point.parse::<geojson::GeoJson>().unwrap(),
        segment.take_segments().expect("status is good")
    );
    let failed = SegmentResponse::from_parts(
        &tree,
        Err(DecodeError::GeoJson("no".to_string())),
    );
    assert_eq!(
        Err(DecodeError::GeoJson("no".to_string())),
        failed.map(|_| ())
    );
    assert_eq!(
        Err(DecodeError::NotAnObject),
        SegmentResponse::from_parts(&Json::Null, read_geojson(point)).map(|_| ())
    );
}

#[test]
fn read_geojson_tells_documents_from_other_json() {
    assert!(read_geojson(r#"{"type": "Point", "coordinates": [1.0, 2.0]}"#).is_ok());
    assert!(matches!(
        read_geojson(r#"{"type": "Point"}"#),
        Err(DecodeError::GeoJson(_))
    ));
    assert!(matches!(read_geojson("[]"), Err(DecodeError::GeoJson(_))));
    assert!(matches!(read_geojson("{"), Err(DecodeError::GeoJson(_))));
}

#[test]
fn the_first_field_that_fails_gives_the_error() {
    let tree = Json::Object(vec![
        entry("instance_id", text("one")),
        entry("mac", text("two")),
    ]);
    assert_eq!(
        Err(invalid("instance_id")),
        Camera::from_json(&tree).map(|_| ())
    );
    let tree = Json::Object(vec![entry("instance_id", Json::Number(JsonNumber::Signed(-1)))]);
    assert_eq!(Err(missing("mac")), Camera::from_json(&tree).map(|_| ()));
    assert_eq!(
        Err(missing("segment_id")),
        Report::from_json(&tree).map(|_| ())
    );
    assert_eq!(
        Err(DecodeError::NotAnObject),
        Report::from_json(&Json::Array(vec![])).map(|_| ())
    );
}

#[test]
fn the_first_item_that_fails_gives_the_error() {
    let good = Json::parse(
        r#"{"instance_id": 1, "mac": 2, "user_id": 3, "segment_id": 4, "direction": true,
            "status": "active", "manual": false, "time_added": "2019-10-02T19:42:54Z",
            "time_end": null, "last_data_package": "2021-05-02 10:56:15",
            "first_data_package": "1970-01-01T00:00:00.000Z", "pedestrians_left": false,
            "pedestrians_right": true, "bikes_left": true, "bikes_right": true,
            "cars_left": true, "cars_right": true, "is_calibration_done": "yes"}"#,
    )
    .expect("json");
    let camera = Camera::from_json(&good).expect("a camera");
    assert_eq!(Timestamp { secs: 1570045374, nanos: 0 }, camera.time_added);
    assert_eq!(Timestamp { secs: 1619952975, nanos: 0 }, camera.last_data_package);
    let mut items = vec![good];
    assert_eq!(1, Camera::list_from_json(&items).expect("cameras").len());
    items.push(Json::Null);
    items.push(Json::Object(vec![]));
    assert_eq!(
        Err(DecodeError::NotAnObject),
        Camera::list_from_json(&items).map(|_| ())
    );
    assert_eq!(
        Err(missing("date")),
        Report::list_from_json(&items).map(|_| ())
    );
}
