//! The operations of the API, each as a value that holds what one call needs.

use crate::response::{
    CamerasResponse, Response, SegmentResponse, TrafficResponse, TrafficSnapshotResponse,
    WelcomeResponse,
};
use crate::time::{is_rfc3339_millis, rfc3339_millis, Timestamp};
use vstd::prelude::*;

verus! {

/// How a request goes out.
#[derive(Clone, Copy, Debug, PartialEq, Eq, Structural)]
pub enum Method {
    Get,
    Post,
}

/// The query parameters of a call: names, each with a value or without one.
pub type Params = Vec<(String, Option<String>)>;

/// The mathematical content of a list of query parameters.
pub open spec fn params_view(params: Seq<(String, Option<String>)>) -> Seq<
    (Seq<char>, Option<Seq<char>>),
> {
    Seq::new(
        params.len(),
        |i: int|
            (
                params[i].0@,
                match params[i].1 {
                    Some(value) => Some(value@),
                    None => None,
                },
            ),
    )
}

/// The mathematical content of a list of named texts.
pub open spec fn pairs_view(pairs: Seq<(String, String)>) -> Seq<(Seq<char>, Seq<char>)> {
    Seq::new(pairs.len(), |i: int| (pairs[i].0@, pairs[i].1@))
}

/// What goes out as the body of a request: a JSON object of texts.
pub trait Payload {
    /// Whether the payload can be written down.
    spec fn ready(&self) -> bool;

    /// The entries of the object, in the order in which they are written.
    spec fn spec_fields(&self) -> Seq<(Seq<char>, Seq<char>)>;

    /// The entries of the object.
    fn fields(&self) -> (r: Vec<(String, String)>)
        requires
            self.ready(),
        ensures
            pairs_view(r@) == self.spec_fields(),
    ;
}

impl Payload for () {
    open spec fn ready(&self) -> bool {
        true
    }

    open spec fn spec_fields(&self) -> Seq<(Seq<char>, Seq<char>)> {
        Seq::empty()
    }

    fn fields(&self) -> (r: Vec<(String, String)>) {
        let r: Vec<(String, String)> = Vec::new();
        assert(pairs_view(r@) =~= Seq::empty());
        r
    }
}

/// The shape of all the operations of the API. A value of an implementing
/// type holds the parameters of one call.
pub trait Endpoint {
    /// The path of the operation below the version.
    spec fn spec_path() -> Seq<char>;

    /// How the request of the operation goes out.
    spec fn spec_method() -> Method;

    /// The path of the operation below the version, such as
    /// `reports/traffic`.
    fn path() -> (r: &'static str)
        ensures
            r@ == Self::spec_path(),
    ;

    /// `GET` or `POST`.
    fn method() -> (r: Method)
        ensures
            r == Self::spec_method(),
    ;

    /// What the service answers.
    type Response: Response;

    /// What a `POST` sends.
    type Request: Payload;

    /// The payload of this call, where it has one.
    spec fn spec_payload(&self) -> Option<Self::Request>;

    /// The query parameters of this call.
    spec fn spec_params(&self) -> Seq<(Seq<char>, Option<Seq<char>>)>;

    /// What this call appends to the path, where it does.
    spec fn spec_path_params(&self) -> Option<Seq<char>>;

    /// Payload should only be associated for `POST` requests.
    fn payload(&self) -> (r: Option<&Self::Request>)
        ensures
            match r {
                Some(request) => self.spec_payload() == Some(*request) && request.ready(),
                None => self.spec_payload() is None,
            },
    ;

    /// Parameters to add to the request.
    fn params(&self) -> (r: Params)
        ensures
            params_view(r@) == self.spec_params(),
    ;

    /// Path params additional parameters to add to the path.
    fn path_params(&self) -> (r: Option<&str>)
        ensures
            match r {
                Some(segment) => self.spec_path_params() == Some(segment@),
                None => self.spec_path_params() is None,
            },
    ;
}

/// No query parameters.
pub fn no_params() -> (r: Params)
    ensures
        params_view(r@) == Seq::<(Seq<char>, Option<Seq<char>>)>::empty(),
{
    let r: Params = Vec::new();
    assert(params_view(r@) =~= Seq::empty());
    r
}

/// A simple call that tells whether the API is alive and well.
#[derive(Debug)]
pub struct Welcome;

impl Endpoint for Welcome {
    open spec fn spec_path() -> Seq<char> {
        ""@
    }

    open spec fn spec_method() -> Method {
        Method::Get
    }

    fn path() -> (r: &'static str) {
        ""
    }

    fn method() -> (r: Method) {
        Method::Get
    }

    type Response = WelcomeResponse;

    type Request = ();

    open spec fn spec_payload(&self) -> Option<()> {
        None
    }

    open spec fn spec_params(&self) -> Seq<(Seq<char>, Option<Seq<char>>)> {
        Seq::empty()
    }

    open spec fn spec_path_params(&self) -> Option<Seq<char>> {
        None
    }

    fn payload(&self) -> (r: Option<&()>) {
        None
    }

    fn params(&self) -> (r: Params) {
        no_params()
    }

    fn path_params(&self) -> (r: Option<&str>) {
        None
    }
}

/// How detailed the calculations should be.
#[derive(Clone, Copy, Debug, PartialEq, Eq, Structural)]
pub enum TrafficLevel {
    /// The statistics are calculated for a segment.
    Segments,
    /// The statistics are calculated for an individual camera.
    Instance,
}

impl Default for TrafficLevel {
    fn default() -> (level: TrafficLevel)
        ensures
            level == TrafficLevel::Segments,
    {
        TrafficLevel::Segments
    }
}

impl TrafficLevel {
    /// The text that stands for the level on the wire.
    pub open spec fn spec_text(self) -> Seq<char> {
        match self {
            TrafficLevel::Segments => "segments"@,
            TrafficLevel::Instance => "instance"@,
        }
    }

    /// The text that stands for the level on the wire: `segments` or
    /// `instance`.
    pub fn as_str(&self) -> (text: &'static str)
        ensures
            text@ == self.spec_text(),
    {
        match self {
            TrafficLevel::Segments => "segments",
            TrafficLevel::Instance => "instance",
        }
    }
}

/// What a request for observed traffic asks for.
#[derive(Debug)]
pub struct TrafficRequest {
    /// Whether the statistics are those of a segment or of a single camera.
    pub level: TrafficLevel,
    /// The aggregation; the service knows `per-hour`.
    pub format: String,
    /// The identifier of the segment or of the instance.
    pub id: String,
    /// The beginning of the requested time interval, in UTC.
    pub time_start: Timestamp,
    /// The end of the requested time interval, in UTC; the interval does
    /// not include it.
    pub time_end: Timestamp,
}

impl Clone for TrafficRequest {
    fn clone(&self) -> (copy: TrafficRequest)
        ensures
            copy.level == self.level,
            copy.format@ == self.format@,
            copy.id@ == self.id@,
            copy.time_start == self.time_start,
            copy.time_end == self.time_end,
    {
        TrafficRequest {
            level: self.level,
            format: self.format.clone(),
            id: self.id.clone(),
            time_start: self.time_start,
            time_end: self.time_end,
        }
    }
}

impl TrafficRequest {
    /// Whether both instants of the request have an RFC 3339 text.
    pub open spec fn wf(&self) -> bool {
        self.time_start.wf() && self.time_end.wf()
    }

    /// Whether both instants of the request have an RFC 3339 text.
    pub fn is_valid(&self) -> (ok: bool)
        ensures
            ok == self.wf(),
    {
        self.time_start.is_valid() && self.time_end.is_valid()
    }
}

impl Payload for TrafficRequest {
    open spec fn ready(&self) -> bool {
        self.wf()
    }

    open spec fn spec_fields(&self) -> Seq<(Seq<char>, Seq<char>)> {
        seq![
            ("level"@, self.level.spec_text()),
            ("format"@, self.format@),
            ("id"@, self.id@),
            ("time_start"@, rfc3339_millis(self.time_start.secs, self.time_start.nanos)),
            ("time_end"@, rfc3339_millis(self.time_end.secs, self.time_end.nanos)),
        ]
    }

    fn fields(&self) -> (r: Vec<(String, String)>)
        ensures
            r@.len() == 5,
            r@[0].1@ == "segments"@ || r@[0].1@ == "instance"@,
            is_rfc3339_millis(r@[3].1@),
            is_rfc3339_millis(r@[4].1@),
    {
        let mut r: Vec<(String, String)> = Vec::new();
        r.push(("level".to_owned(), self.level.as_str().to_owned()));
        r.push(("format".to_owned(), self.format.clone()));
        r.push(("id".to_owned(), self.id.clone()));
        r.push(("time_start".to_owned(), self.time_start.to_rfc3339_millis()));
        r.push(("time_end".to_owned(), self.time_end.to_rfc3339_millis()));
        assert(pairs_view(r@) =~= self.spec_fields());
        r
    }
}

/// Retrieves the traffic that was observed on a segment in a time interval
/// of at most three months. What is asked for goes out in the body, see
/// [`TrafficRequest`].
#[derive(Debug)]
pub struct Traffic {
    request: TrafficRequest,
}

impl Traffic {
    /// The request that this call sends.
    pub closed spec fn spec_request(&self) -> TrafficRequest {
        self.request
    }

    #[verifier::type_invariant]
    spec fn inv(&self) -> bool {
        self.request.wf()
    }

    /// The call that sends `request`; none where one of its instants has no
    /// RFC 3339 text.
    pub fn new(request: TrafficRequest) -> (r: Option<Traffic>)
        ensures
            request.wf() ==> r is Some && r->Some_0.spec_request() == request,
            !request.wf() ==> r is None,
    {
        if request.is_valid() {
            Some(Traffic { request })
        } else {
            None
        }
    }
}

impl Endpoint for Traffic {
    open spec fn spec_path() -> Seq<char> {
        "reports/traffic"@
    }

    open spec fn spec_method() -> Method {
        Method::Post
    }

    fn path() -> (r: &'static str) {
        "reports/traffic"
    }

    fn method() -> (r: Method) {
        Method::Post
    }

    type Response = TrafficResponse;

    type Request = TrafficRequest;

    open spec fn spec_payload(&self) -> Option<TrafficRequest> {
        Some(self.spec_request())
    }

    open spec fn spec_params(&self) -> Seq<(Seq<char>, Option<Seq<char>>)> {
        Seq::empty()
    }

    open spec fn spec_path_params(&self) -> Option<Seq<char>> {
        None
    }

    fn payload(&self) -> (r: Option<&TrafficRequest>) {
        proof {
            use_type_invariant(self);
        }
        Some(&self.request)
    }

    fn params(&self) -> (r: Params) {
        no_params()
    }

    fn path_params(&self) -> (r: Option<&str>) {
        None
    }
}

/// The live version of the traffic snapshot. The service compiles the
/// GeoJSON that it returns every five minutes.
#[derive(Debug)]
pub struct LiveTrafficSnapshot;

impl Endpoint for LiveTrafficSnapshot {
    open spec fn spec_path() -> Seq<char> {
        "reports/traffic_snapshot_live"@
    }

    open spec fn spec_method() -> Method {
        Method::Get
    }

    fn path() -> (r: &'static str) {
        "reports/traffic_snapshot_live"
    }

    fn method() -> (r: Method) {
        Method::Get
    }

    type Response = TrafficSnapshotResponse;

    type Request = ();

    open spec fn spec_payload(&self) -> Option<()> {
        None
    }

    open spec fn spec_params(&self) -> Seq<(Seq<char>, Option<Seq<char>>)> {
        Seq::empty()
    }

    open spec fn spec_path_params(&self) -> Option<Seq<char>> {
        None
    }

    fn payload(&self) -> (r: Option<&()>) {
        None
    }

    fn params(&self) -> (r: Params) {
        no_params()
    }

    fn path_params(&self) -> (r: Option<&str>) {
        None
    }
}

/// Retrieves all camera instances. A camera that is moved, changes its
/// owner or is turned round gets a new instance, and the old one an end
/// time.
#[derive(Debug)]
pub struct AllAvailableCameras;

impl Endpoint for AllAvailableCameras {
    open spec fn spec_path() -> Seq<char> {
        "cameras"@
    }

    open spec fn spec_method() -> Method {
        Method::Get
    }

    fn path() -> (r: &'static str) {
        "cameras"
    }

    fn method() -> (r: Method) {
        Method::Get
    }

    type Response = CamerasResponse;

    type Request = ();

    open spec fn spec_payload(&self) -> Option<()> {
        None
    }

    open spec fn spec_params(&self) -> Seq<(Seq<char>, Option<Seq<char>>)> {
        Seq::empty()
    }

    open spec fn spec_path_params(&self) -> Option<Seq<char>> {
        None
    }

    fn payload(&self) -> (r: Option<&()>) {
        None
    }

    fn params(&self) -> (r: Params) {
        no_params()
    }

    fn path_params(&self) -> (r: Option<&str>) {
        None
    }
}

/// Retrieves the camera instances of one segment, archived ones included.
#[derive(Debug)]
pub struct CamerasBySegmentId {
    /// The identifier of the segment.
    pub segment_id: String,
}

impl Endpoint for CamerasBySegmentId {
    open spec fn spec_path() -> Seq<char> {
        "cameras/segment"@
    }

    open spec fn spec_method() -> Method {
        Method::Get
    }

    fn path() -> (r: &'static str) {
        "cameras/segment"
    }

    fn method() -> (r: Method) {
        Method::Get
    }

    type Response = CamerasResponse;

    type Request = ();

    open spec fn spec_payload(&self) -> Option<()> {
        None
    }

    open spec fn spec_params(&self) -> Seq<(Seq<char>, Option<Seq<char>>)> {
        Seq::empty()
    }

    open spec fn spec_path_params(&self) -> Option<Seq<char>> {
        Some(self.segment_id@)
    }

    fn payload(&self) -> (r: Option<&()>) {
        None
    }

    fn params(&self) -> (r: Params) {
        no_params()
    }

    fn path_params(&self) -> (r: Option<&str>) {
        Some(self.segment_id.as_str())
    }
}

/// Retrieves the camera instances that belong to one MAC address.
#[derive(Debug)]
pub struct CameraByMacId {
    mac_id: String,
}

impl CameraByMacId {
    /// The MAC address that the call asks for.
    pub closed spec fn spec_mac_id(&self) -> Seq<char> {
        self.mac_id@
    }

    /// The call for the cameras with the MAC address `mac_id`.
    pub fn new(mac_id: String) -> (r: CameraByMacId)
        ensures
            r.spec_mac_id() == mac_id@,
    {
        CameraByMacId { mac_id }
    }
}

impl Endpoint for CameraByMacId {
    open spec fn spec_path() -> Seq<char> {
        "cameras"@
    }

    open spec fn spec_method() -> Method {
        Method::Get
    }

    fn path() -> (r: &'static str) {
        "cameras"
    }

    fn method() -> (r: Method) {
        Method::Get
    }

    type Response = CamerasResponse;

    type Request = ();

    open spec fn spec_payload(&self) -> Option<()> {
        None
    }

    open spec fn spec_params(&self) -> Seq<(Seq<char>, Option<Seq<char>>)> {
        Seq::empty()
    }

    open spec fn spec_path_params(&self) -> Option<Seq<char>> {
        Some(self.spec_mac_id())
    }

    fn payload(&self) -> (r: Option<&()>) {
        None
    }

    fn params(&self) -> (r: Params) {
        no_params()
    }

    fn path_params(&self) -> (r: Option<&str>) {
        Some(self.mac_id.as_str())
    }
}

/// Retrieves all road segments as GeoJSON.
#[derive(Debug)]
pub struct AllSegments;

impl Endpoint for AllSegments {
    open spec fn spec_path() -> Seq<char> {
        "segments/all"@
    }

    open spec fn spec_method() -> Method {
        Method::Get
    }

    fn path() -> (r: &'static str) {
        "segments/all"
    }

    fn method() -> (r: Method) {
        Method::Get
    }

    type Response = SegmentResponse;

    type Request = ();

    open spec fn spec_payload(&self) -> Option<()> {
        None
    }

    open spec fn spec_params(&self) -> Seq<(Seq<char>, Option<Seq<char>>)> {
        Seq::empty()
    }

    open spec fn spec_path_params(&self) -> Option<Seq<char>> {
        None
    }

    fn payload(&self) -> (r: Option<&()>) {
        None
    }

    fn params(&self) -> (r: Params) {
        no_params()
    }

    fn path_params(&self) -> (r: Option<&str>) {
        None
    }
}

/// Retrieves a single segment as GeoJSON.
#[derive(Debug)]
pub struct SegmentById {
    segment_id: String,
}

impl SegmentById {
    /// The identifier that the call asks for.
    pub closed spec fn spec_segment_id(&self) -> Seq<char> {
        self.segment_id@
    }

    /// The call for the segment with the identifier `segment_id`.
    pub fn new(segment_id: String) -> (r: SegmentById)
        ensures
            r.spec_segment_id() == segment_id@,
    {
        SegmentById { segment_id }
    }
}

impl Endpoint for SegmentById {
    open spec fn spec_path() -> Seq<char> {
        "segments/id"@
    }

    open spec fn spec_method() -> Method {
        Method::Get
    }

    fn path() -> (r: &'static str) {
        "segments/id"
    }

    fn method() -> (r: Method) {
        Method::Get
    }

    type Response = SegmentResponse;

    type Request = ();

    open spec fn spec_payload(&self) -> Option<()> {
        None
    }

    open spec fn spec_params(&self) -> Seq<(Seq<char>, Option<Seq<char>>)> {
        Seq::empty()
    }

    open spec fn spec_path_params(&self) -> Option<Seq<char>> {
        Some(self.spec_segment_id())
    }

    fn payload(&self) -> (r: Option<&()>) {
        None
    }

    fn params(&self) -> (r: Params) {
        no_params()
    }

    fn path_params(&self) -> (r: Option<&str>) {
        Some(self.segment_id.as_str())
    }
}

/// A level is written as `segments` or as `instance`, and the two differ.
pub proof fn lemma_level_text(level: TrafficLevel)
    ensures
        level == TrafficLevel::Segments <==> level.spec_text() == "segments"@,
        level == TrafficLevel::Instance <==> level.spec_text() == "instance"@,
{
    reveal_strlit("segments");
    reveal_strlit("instance");
    assert("segments"@[0] == 's');
    assert("instance"@[0] == 'i');
}

} // verus!
