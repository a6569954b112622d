use serde_json::Value;
use telraam::client::{render, url, Header, InvalidToken, TelraamClient};
use telraam::endpoint::{
    AllAvailableCameras, AllSegments, CameraByMacId, CamerasBySegmentId, Endpoint,
    LiveTrafficSnapshot, Method, Payload, SegmentById, Traffic, TrafficLevel, TrafficRequest,
    Welcome,
};
use telraam::response::Response;
use telraam::time::Timestamp;

fn sample_request() -> TrafficRequest {
    TrafficRequest {
        level: TrafficLevel::Segments,
        format: String::from("per-hour"),
        id: "348917".to_string(),
        time_start: Timestamp::parse("2020-10-30 07:00:00Z").unwrap(),
        time_end: Timestamp::parse("2020-10-30 09:00:00Z").unwrap(),
    }
}

#[test]
fn test_serialize_traffic() {
    let request = sample_request();
    let json = render(&request);
    let parsed = serde_json::from_str::<Value>(&json).expect("failed to parse");

    assert_eq!("segments", parsed["level"]);
    assert_eq!("per-hour", parsed["format"]);
    assert_eq!("348917", parsed["id"]);
    assert_eq!("2020-10-30T07:00:00.000Z", parsed["time_start"]);
    assert_eq!("2020-10-30T09:00:00.000Z", parsed["time_end"]);
}

#[test]
fn traffic_body_holds_the_five_fields_and_no_other() {
    let json = render(&sample_request());
    let parsed = serde_json::from_str::<Value>(&json).expect("failed to parse");
    assert_eq!(5, parsed.as_object().expect("an object").len());
}

#[test]
fn traffic_body_escapes_what_json_escapes() {
    let mut request = sample_request();
    request.id = "a\"b".to_string();
    let json = render(&request);
    assert!(json.contains(r#""id":"a\"b""#));
}

#[test]
fn instance_level_is_written_as_instance() {
    let mut request = sample_request();
    request.level = TrafficLevel::Instance;
    let fields = request.fields();
    assert_eq!(("level".to_string(), "instance".to_string()), fields[0]);
    assert_eq!("instance", TrafficLevel::Instance.as_str());
    assert_eq!("segments", TrafficLevel::Segments.as_str());
}

#[test]
fn default_level_is_segments() {
    assert_eq!(TrafficLevel::Segments, TrafficLevel::default());
}

#[test]
fn request_fields_come_in_their_order() {
    let fields = sample_request().fields();
    let names: Vec<&str> = fields.iter().map(|(name, _)| name.as_str()).collect();
    assert_eq!(
        vec!["level", "format", "id", "time_start", "time_end"],
        names
    );
    assert_eq!("2020-10-30T07:00:00.000Z", fields[3].1);
    assert_eq!("2020-10-30T09:00:00.000Z", fields[4].1);
}

#[test]
fn fractions_of_a_second_are_cut_to_milliseconds() {
    let mut request = sample_request();
    request.time_start = Timestamp::new(1604041200, 123_456_789).unwrap();
    let fields = request.fields();
    assert_eq!("2020-10-30T07:00:00.123Z", fields[3].1);
}

#[test]
fn unit_payload_has_no_fields() {
    assert!(().fields().is_empty());
    assert_eq!("{}", render(&()));
}

#[test]
fn traffic_takes_only_requests_that_can_be_written() {
    assert!(Traffic::new(sample_request()).is_some());
    let mut late = sample_request();
    late.time_end = Timestamp {
        secs: 253_402_300_800,
        nanos: 0,
    };
    assert!(!late.is_valid());
    assert!(Traffic::new(late).is_none());
    let mut odd = sample_request();
    odd.time_start = Timestamp {
        secs: 0,
        nanos: 1_000_000_000,
    };
    assert!(Traffic::new(odd).is_none());
}

#[test]
fn paths_and_methods_are_those_of_the_api() {
    assert_eq!("", Welcome::path());
    assert_eq!(Method::Get, Welcome::method());
    assert_eq!("reports/traffic", Traffic::path());
    assert_eq!(Method::Post, Traffic::method());
    assert_eq!("reports/traffic_snapshot_live", LiveTrafficSnapshot::path());
    assert_eq!(Method::Get, LiveTrafficSnapshot::method());
    assert_eq!("cameras", AllAvailableCameras::path());
    assert_eq!(Method::Get, AllAvailableCameras::method());
    assert_eq!("cameras/segment", CamerasBySegmentId::path());
    assert_eq!(Method::Get, CamerasBySegmentId::method());
    assert_eq!("cameras", CameraByMacId::path());
    assert_eq!(Method::Get, CameraByMacId::method());
    assert_eq!("segments/all", AllSegments::path());
    assert_eq!(Method::Get, AllSegments::method());
    assert_eq!("segments/id", SegmentById::path());
    assert_eq!(Method::Get, SegmentById::method());
}

#[test]
fn only_traffic_has_a_payload() {
    assert!(Welcome.payload().is_none());
    assert!(LiveTrafficSnapshot.payload().is_none());
    assert!(AllAvailableCameras.payload().is_none());
    assert!(AllSegments.payload().is_none());
    assert!(CameraByMacId::new("1".to_string()).payload().is_none());
    assert!(SegmentById::new("1".to_string()).payload().is_none());
    let traffic = Traffic::new(sample_request()).unwrap();
    assert_eq!("348917", traffic.payload().expect("a payload").id);
}

#[test]
fn only_lookups_by_id_add_to_the_path() {
    assert_eq!(None, Welcome.path_params());
    assert_eq!(None, AllAvailableCameras.path_params());
    assert_eq!(None, Traffic::new(sample_request()).unwrap().path_params());
    let by_segment = CamerasBySegmentId {
        segment_id: "348917".to_string(),
    };
    assert_eq!(Some("348917"), by_segment.path_params());
    assert_eq!(
        Some("202481587145269"),
        CameraByMacId::new("202481587145269".to_string()).path_params()
    );
    assert_eq!(
        Some("9000001463"),
        SegmentById::new("9000001463".to_string()).path_params()
    );
}

#[test]
fn no_endpoint_has_query_parameters() {
    assert!(Welcome.params().is_empty());
    assert!(Traffic::new(sample_request()).unwrap().params().is_empty());
    assert!(SegmentById::new("1".to_string()).params().is_empty());
}

#[test]
fn url_is_base_version_path_and_segment() {
    assert_eq!("https://telraam-api.net/v1/", url("", None));
    assert_eq!(
        "https://telraam-api.net/v1/reports/traffic",
        url("reports/traffic", None)
    );
    assert_eq!(
        "https://telraam-api.net/v1/segments/id/348917",
        url("segments/id", Some("348917"))
    );
    assert_eq!("v1", telraam::VER);
}

#[test]
fn token_must_be_a_header_value() {
    assert!(TelraamClient::new("abc-DEF_123").is_ok());
    assert!(TelraamClient::new("").is_ok());
    assert!(TelraamClient::new("tab\tinside").is_ok());
    assert!(TelraamClient::new("caf\u{e9}").is_ok());
    assert_eq!(
        Some(InvalidToken),
        TelraamClient::new("line\nbreak").err()
    );
    assert_eq!(Some(InvalidToken), TelraamClient::new("del\u{7f}").err());
    assert_eq!(Some(InvalidToken), TelraamClient::new("nul\u{0}").err());
}

#[test]
fn client_headers_carry_the_token_as_sensitive() {
    let client = TelraamClient::new("secret-token").unwrap();
    let headers: Vec<Header> = client.headers();
    assert_eq!(3, headers.len());
    assert_eq!("accept", headers[0].name);
    assert_eq!("application/json", headers[0].value);
    assert!(!headers[0].sensitive);
    assert_eq!("content-type", headers[1].name);
    assert_eq!("application/json", headers[1].value);
    assert!(!headers[1].sensitive);
    assert_eq!("X-Api-Key", headers[2].name);
    assert_eq!("secret-token", headers[2].value);
    assert!(headers[2].sensitive);
}

#[test]
fn request_of_a_get_has_no_body() {
    let client = TelraamClient::new("token").unwrap();
    let request = client.request(&CamerasBySegmentId {
        segment_id: "348917".to_string(),
    });
    assert_eq!(Method::Get, request.method);
    assert_eq!(
        "https://telraam-api.net/v1/cameras/segment/348917",
        request.url
    );
    assert!(request.query.is_empty());
    assert_eq!(None, request.body);
}

#[test]
fn request_of_traffic_posts_the_payload() {
    let client = TelraamClient::new("token").unwrap();
    let request = client.request(&Traffic::new(sample_request()).unwrap());
    assert_eq!(Method::Post, request.method);
    assert_eq!("https://telraam-api.net/v1/reports/traffic", request.url);
    let body = request.body.expect("a body");
    let parsed = serde_json::from_str::<Value>(&body).expect("failed to parse");
    assert_eq!("segments", parsed["level"]);
    assert_eq!("2020-10-30T09:00:00.000Z", parsed["time_end"]);
}

#[test]
fn receive_reads_the_response_of_the_endpoint() {
    let client = TelraamClient::new("token").unwrap();
    let welcome = client
        .receive(&Welcome, r#"{"msg": "hello"}"#)
        .expect("a welcome");
    assert_eq!("hello", welcome.status().message);
    let failed = client
        .receive(
            &AllAvailableCameras,
            r#"{"status_code": 403, "message": "Forbidden", "cameras": []}"#,
        )
        .expect("a response");
    assert_eq!(403, failed.status().status_code);
    assert!(failed.cameras().is_err());
}
