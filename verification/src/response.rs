//! The responses of the API: a status in every one, and a payload that is
//! handed out only where the status reports success.

pub use crate::camera::{Camera, CameraView};
pub use crate::report::{Report, ReportView};

use crate::camera::{camera_views, spec_camera_list};
use crate::report::{report_views, spec_report_list};
use crate::decode::{
    object, spec_integer_field, spec_object, spec_text_field, text_field, unsigned_field, Fields,
};
use crate::error::{DecodeError, DecodeErrorView, Error, ErrorView};
use crate::geo::{read_geojson, spec_read_geojson};
use crate::json::{spec_get, Json};
use geojson::GeoJson;
use vstd::prelude::*;

verus! {

/// The highest status code that still reports success.
pub const MAX_SUCCESS: usize = 299;

/// What every response starts with: a code in the manner of HTTP, and the
/// message that the service sent with it.
#[derive(Debug)]
pub struct Status {
    /// 200 is good; anything above 299 is a failure reported by the service.
    pub status_code: usize,
    /// Message returned by the service.
    pub message: String,
}

/// The mathematical content of a [`Status`].
pub struct StatusView {
    pub status_code: nat,
    pub message: Seq<char>,
}

impl View for Status {
    type V = StatusView;

    open spec fn view(&self) -> StatusView {
        StatusView { status_code: self.status_code as nat, message: self.message@ }
    }
}

impl Clone for Status {
    fn clone(&self) -> (copy: Status)
        ensures
            copy@ == self@,
    {
        Status { status_code: self.status_code, message: self.message.clone() }
    }
}

impl StatusView {
    /// Whether the status reports success.
    pub open spec fn is_success(self) -> bool {
        self.status_code <= MAX_SUCCESS
    }
}

/// What asking for a payload gives: the payload where the status reports
/// success, else the error that carries the status.
pub open spec fn spec_guarded<T>(status: StatusView, payload: T) -> Result<T, ErrorView> {
    if status.is_success() {
        Ok(payload)
    } else {
        Err(ErrorView::Non200Response(status))
    }
}

/// The status code among the entries of a body: 0 where there is none.
pub open spec fn spec_status_code(fields: Seq<(String, Json)>) -> Result<int, DecodeErrorView> {
    if spec_get(fields, "status_code"@) is Some {
        spec_integer_field(fields, "status_code"@, 0, usize::MAX as int)
    } else {
        Ok(0)
    }
}

/// The message among the entries of a body: under `message` or under `msg`,
/// and not under both.
pub open spec fn spec_message(fields: Seq<(String, Json)>) -> Result<Seq<char>, DecodeErrorView> {
    if spec_get(fields, "message"@) is Some {
        if spec_get(fields, "msg"@) is Some {
            Err(DecodeErrorView::DuplicateField("message"@))
        } else {
            spec_text_field(fields, "message"@)
        }
    } else if spec_get(fields, "msg"@) is Some {
        spec_text_field(fields, "msg"@)
    } else {
        Err(DecodeErrorView::MissingField("message"@))
    }
}

/// The status among the entries of a body. Entries that belong to no status
/// are passed over.
pub open spec fn spec_status(fields: Seq<(String, Json)>) -> Result<StatusView, DecodeErrorView> {
    match spec_status_code(fields) {
        Err(e) => Err(e),
        Ok(code) => match spec_message(fields) {
            Err(e) => Err(e),
            Ok(message) => Ok(StatusView { status_code: code as nat, message }),
        },
    }
}

impl Status {
    /// Success if the code is at most 299; else the error that carries this
    /// status.
    pub fn try_to_error(&self) -> (r: Result<(), Error>)
        ensures
            self@.is_success() ==> r is Ok,
            !self@.is_success() ==> r is Err && r->Err_0@ == ErrorView::Non200Response(self@),
    {
        if self.status_code <= MAX_SUCCESS {
            Ok(())
        } else {
            Err(Error::Non200Response(self.clone()))
        }
    }

    /// As [`Status::try_to_error`], giving the status itself away.
    pub fn try_into_error(self) -> (r: Result<(), Error>)
        ensures
            self@.is_success() ==> r is Ok,
            !self@.is_success() ==> r == Err::<(), Error>(Error::Non200Response(self)),
    {
        if self.status_code <= MAX_SUCCESS {
            Ok(())
        } else {
            Err(Error::Non200Response(self))
        }
    }

    /// Reads the status from the entries of a body.
    pub fn from_fields(fields: &Fields) -> (r: Result<Status, DecodeError>)
        ensures
            match r {
                Ok(status) => spec_status(fields@) == Ok::<_, DecodeErrorView>(status@),
                Err(e) => spec_status(fields@) == Err::<StatusView, _>(e@),
            },
    {
        let status_code = if Json::get(fields, "status_code").is_some() {
            unsigned_field(fields, "status_code")?
        } else {
            0
        };
        let message = if Json::get(fields, "message").is_some() {
            if Json::get(fields, "msg").is_some() {
                return Err(DecodeError::DuplicateField("message".to_owned()));
            }
            text_field(fields, "message")?
        } else if Json::get(fields, "msg").is_some() {
            text_field(fields, "msg")?
        } else {
            return Err(DecodeError::MissingField("message".to_owned()));
        };
        Ok(Status { status_code, message })
    }
}

/// What all responses share: they are read from a body, and they have a
/// status.
pub trait Response: Sized {
    /// The status of the response.
    spec fn spec_status(&self) -> StatusView;

    /// Whether `r` is what reading `body` has to give.
    spec fn decoded(body: Seq<char>, r: Result<Self, DecodeError>) -> bool;

    /// Return the status from the request.
    fn status(&self) -> (status: &Status)
        ensures
            status@ == self.spec_status(),
    ;

    /// Reads the response from the body that the service sent.
    fn decode(body: &str) -> (r: Result<Self, DecodeError>)
        ensures
            Self::decoded(body@, r),
    ;
}

/// The simple response from the Welcome API.
#[derive(Debug)]
pub struct WelcomeResponse {
    status: Status,
}

impl WelcomeResponse {
    /// What a document gives as a welcome: the status among its entries.
    pub open spec fn spec_from_json(tree: Json) -> Result<StatusView, DecodeErrorView> {
        match spec_object(tree) {
            Err(e) => Err(e),
            Ok(fields) => spec_status(fields),
        }
    }

    /// A welcome with the given status.
    pub fn new(status: Status) -> (r: WelcomeResponse)
        ensures
            r.spec_status() == status@,
    {
        WelcomeResponse { status }
    }

    /// Reads the response from a document.
    pub fn from_json(tree: &Json) -> (r: Result<WelcomeResponse, DecodeError>)
        ensures
            match r {
                Ok(welcome) => Self::spec_from_json(*tree) == Ok::<_, DecodeErrorView>(
                    welcome.spec_status(),
                ),
                Err(e) => Self::spec_from_json(*tree) == Err::<StatusView, _>(e@),
            },
    {
        let fields = object(tree)?;
        let status = Status::from_fields(fields)?;
        Ok(WelcomeResponse { status })
    }
}

impl Response for WelcomeResponse {
    closed spec fn spec_status(&self) -> StatusView {
        self.status@
    }

    open spec fn decoded(body: Seq<char>, r: Result<Self, DecodeError>) -> bool {
        match Json::spec_parse(body) {
            Err(m) => r is Err && r->Err_0@ == DecodeErrorView::Syntax(m),
            Ok(tree) => match r {
                Ok(welcome) => Self::spec_from_json(tree) == Ok::<_, DecodeErrorView>(
                    welcome.spec_status(),
                ),
                Err(e) => Self::spec_from_json(tree) == Err::<StatusView, _>(e@),
            },
        }
    }

    fn status(&self) -> (status: &Status) {
        &self.status
    }

    fn decode(body: &str) -> (r: Result<Self, DecodeError>) {
        let tree = Json::parse(body)?;
        WelcomeResponse::from_json(&tree)
    }
}

/// Response to a request for cameras: all of them, those of a segment, or
/// those with a MAC address.
#[derive(Debug)]
pub struct CamerasResponse {
    status: Status,
    cameras: Vec<Camera>,
}

/// The list under `name`, read as cameras.
pub open spec fn spec_cameras_at(fields: Seq<(String, Json)>, name: Seq<char>) -> Result<
    Seq<CameraView>,
    DecodeErrorView,
> {
    match spec_get(fields, name) {
        Some(Json::Array(items)) => spec_camera_list(items@),
        Some(_) => Err(DecodeErrorView::InvalidType(name)),
        None => Err(DecodeErrorView::MissingField(name)),
    }
}

/// The cameras among the entries of a body: under `cameras` or under
/// `camera`, and not under both.
pub open spec fn spec_cameras_field(fields: Seq<(String, Json)>) -> Result<
    Seq<CameraView>,
    DecodeErrorView,
> {
    if spec_get(fields, "cameras"@) is Some {
        if spec_get(fields, "camera"@) is Some {
            Err(DecodeErrorView::DuplicateField("cameras"@))
        } else {
            spec_cameras_at(fields, "cameras"@)
        }
    } else if spec_get(fields, "camera"@) is Some {
        spec_cameras_at(fields, "camera"@)
    } else {
        Err(DecodeErrorView::MissingField("cameras"@))
    }
}

/// Reads the list under `name` as cameras.
fn cameras_at(fields: &Fields, name: &str) -> (r: Result<Vec<Camera>, DecodeError>)
    ensures
        match r {
            Ok(list) => spec_cameras_at(fields@, name@) == Ok::<_, DecodeErrorView>(
                camera_views(list@),
            ) && forall|i: int| 0 <= i < list@.len() ==> (#[trigger] list@[i]).wf(),
            Err(e) => spec_cameras_at(fields@, name@) == Err::<Seq<CameraView>, _>(e@),
        },
{
    match Json::get(fields, name) {
        Some(Json::Array(items)) => Camera::list_from_json(items),
        Some(_) => Err(DecodeError::InvalidType(name.to_owned())),
        None => Err(DecodeError::MissingField(name.to_owned())),
    }
}

impl CamerasResponse {
    /// The cameras of the response, whatever its status.
    pub closed spec fn spec_cameras(&self) -> Seq<Camera> {
        self.cameras@
    }

    /// What a document gives as a response with cameras: the status among
    /// its entries, then the cameras.
    pub open spec fn spec_from_json(tree: Json) -> Result<
        (StatusView, Seq<CameraView>),
        DecodeErrorView,
    > {
        match spec_object(tree) {
            Err(e) => Err(e),
            Ok(fields) => match spec_status(fields) {
                Err(e) => Err(e),
                Ok(status) => match spec_cameras_field(fields) {
                    Err(e) => Err(e),
                    Ok(cameras) => Ok((status, cameras)),
                },
            },
        }
    }

    /// How the outcome of reading a document compares with what reading has
    /// to give.
    pub open spec fn read_as(tree: Json, r: Result<CamerasResponse, DecodeError>) -> bool {
        match r {
            Ok(response) => Self::spec_from_json(tree) == Ok::<_, DecodeErrorView>(
                (response.spec_status(), camera_views(response.spec_cameras())),
            ) && forall|i: int|
                0 <= i < response.spec_cameras().len() ==> (
                #[trigger] response.spec_cameras()[i]).wf(),
            Err(e) => Self::spec_from_json(tree) == Err::<(StatusView, Seq<CameraView>), _>(e@),
        }
    }

    /// A response with the given status and cameras.
    pub fn new(status: Status, cameras: Vec<Camera>) -> (r: CamerasResponse)
        ensures
            r.spec_status() == status@,
            r.spec_cameras() == cameras@,
    {
        CamerasResponse { status, cameras }
    }

    /// Reads the response from a document.
    pub fn from_json(tree: &Json) -> (r: Result<CamerasResponse, DecodeError>)
        ensures
            Self::read_as(*tree, r),
    {
        let fields = object(tree)?;
        let status = Status::from_fields(fields)?;
        let cameras = if Json::get(fields, "cameras").is_some() {
            if Json::get(fields, "camera").is_some() {
                return Err(DecodeError::DuplicateField("cameras".to_owned()));
            }
            cameras_at(fields, "cameras")?
        } else if Json::get(fields, "camera").is_some() {
            cameras_at(fields, "camera")?
        } else {
            return Err(DecodeError::MissingField("cameras".to_owned()));
        };
        Ok(CamerasResponse { status, cameras })
    }

    /// Get a reference to all the cameras in the response: handed out only
    /// where the status reports success.
    pub fn cameras(&self) -> (r: Result<&[Camera], Error>)
        ensures
            match r {
                Ok(payload) => spec_guarded(self.spec_status(), self.spec_cameras()) == Ok::<
                    _,
                    ErrorView,
                >(payload@),
                Err(e) => spec_guarded(self.spec_status(), self.spec_cameras()) is Err && spec_guarded(
                    self.spec_status(),
                    self.spec_cameras(),
                )->Err_0 == e@,
            },
    {
        self.status.try_to_error()?;
        Ok(self.cameras.as_slice())
    }

    /// Take the cameras from the response: handed out only where the status
    /// reports success.
    pub fn take_cameras(self) -> (r: Result<Vec<Camera>, Error>)
        ensures
            match r {
                Ok(payload) => spec_guarded(self.spec_status(), self.spec_cameras()) == Ok::<
                    _,
                    ErrorView,
                >(payload@),
                Err(e) => spec_guarded(self.spec_status(), self.spec_cameras()) is Err && spec_guarded(
                    self.spec_status(),
                    self.spec_cameras(),
                )->Err_0 == e@,
            },
    {
        self.status.try_into_error()?;
        Ok(self.cameras)
    }
}

impl Response for CamerasResponse {
    closed spec fn spec_status(&self) -> StatusView {
        self.status@
    }

    open spec fn decoded(body: Seq<char>, r: Result<Self, DecodeError>) -> bool {
        match Json::spec_parse(body) {
            Err(m) => r is Err && r->Err_0@ == DecodeErrorView::Syntax(m),
            Ok(tree) => Self::read_as(tree, r),
        }
    }

    fn status(&self) -> (status: &Status) {
        &self.status
    }

    fn decode(body: &str) -> (r: Result<Self, DecodeError>) {
        let tree = Json::parse(body)?;
        CamerasResponse::from_json(&tree)
    }
}

/// Response to a request for traffic reports.
#[derive(Debug)]
pub struct TrafficResponse {
    status: Status,
    reports: Vec<Report>,
}

/// The reports among the entries of a body: the list under `report`.
pub open spec fn spec_reports_field(fields: Seq<(String, Json)>) -> Result<
    Seq<ReportView>,
    DecodeErrorView,
> {
    match spec_get(fields, "report"@) {
        Some(Json::Array(items)) => spec_report_list(items@),
        Some(_) => Err(DecodeErrorView::InvalidType("report"@)),
        None => Err(DecodeErrorView::MissingField("report"@)),
    }
}

impl TrafficResponse {
    /// The reports of the response, whatever its status.
    pub closed spec fn spec_reports(&self) -> Seq<Report> {
        self.reports@
    }

    /// What a document gives as a response with reports: the status among
    /// its entries, then the reports.
    pub open spec fn spec_from_json(tree: Json) -> Result<
        (StatusView, Seq<ReportView>),
        DecodeErrorView,
    > {
        match spec_object(tree) {
            Err(e) => Err(e),
            Ok(fields) => match spec_status(fields) {
                Err(e) => Err(e),
                Ok(status) => match spec_reports_field(fields) {
                    Err(e) => Err(e),
                    Ok(reports) => Ok((status, reports)),
                },
            },
        }
    }

    /// How the outcome of reading a document compares with what reading has
    /// to give.
    pub open spec fn read_as(tree: Json, r: Result<TrafficResponse, DecodeError>) -> bool {
        match r {
            Ok(response) => Self::spec_from_json(tree) == Ok::<_, DecodeErrorView>(
                (response.spec_status(), report_views(response.spec_reports())),
            ) && forall|i: int|
                0 <= i < response.spec_reports().len() ==> (
                #[trigger] response.spec_reports()[i]).wf(),
            Err(e) => Self::spec_from_json(tree) == Err::<(StatusView, Seq<ReportView>), _>(e@),
        }
    }

    /// A response with the given status and reports.
    pub fn new(status: Status, reports: Vec<Report>) -> (r: TrafficResponse)
        ensures
            r.spec_status() == status@,
            r.spec_reports() == reports@,
    {
        TrafficResponse { status, reports }
    }

    /// Reads the response from a document.
    pub fn from_json(tree: &Json) -> (r: Result<TrafficResponse, DecodeError>)
        ensures
            Self::read_as(*tree, r),
    {
        let fields = object(tree)?;
        let status = Status::from_fields(fields)?;
        let reports = match Json::get(fields, "report") {
            Some(Json::Array(items)) => Report::list_from_json(items)?,
            Some(_) => {
                return Err(DecodeError::InvalidType("report".to_owned()));
            },
            None => {
                return Err(DecodeError::MissingField("report".to_owned()));
            },
        };
        Ok(TrafficResponse { status, reports })
    }

    /// Get a reference to all the reports returned: handed out only where
    /// the status reports success.
    pub fn reports(&self) -> (r: Result<&[Report], Error>)
        ensures
            match r {
                Ok(payload) => spec_guarded(self.spec_status(), self.spec_reports()) == Ok::<
                    _,
                    ErrorView,
                >(payload@),
                Err(e) => spec_guarded(self.spec_status(), self.spec_reports()) is Err && spec_guarded(
                    self.spec_status(),
                    self.spec_reports(),
                )->Err_0 == e@,
            },
    {
        self.status.try_to_error()?;
        Ok(self.reports.as_slice())
    }

    /// Take the reports from the response: handed out only where the status
    /// reports success.
    pub fn take_reports(self) -> (r: Result<Vec<Report>, Error>)
        ensures
            match r {
                Ok(payload) => spec_guarded(self.spec_status(), self.spec_reports()) == Ok::<
                    _,
                    ErrorView,
                >(payload@),
                Err(e) => spec_guarded(self.spec_status(), self.spec_reports()) is Err && spec_guarded(
                    self.spec_status(),
                    self.spec_reports(),
                )->Err_0 == e@,
            },
    {
        self.status.try_into_error()?;
        Ok(self.reports)
    }
}

impl Response for TrafficResponse {
    closed spec fn spec_status(&self) -> StatusView {
        self.status@
    }

    open spec fn decoded(body: Seq<char>, r: Result<Self, DecodeError>) -> bool {
        match Json::spec_parse(body) {
            Err(m) => r is Err && r->Err_0@ == DecodeErrorView::Syntax(m),
            Ok(tree) => Self::read_as(tree, r),
        }
    }

    fn status(&self) -> (status: &Status) {
        &self.status
    }

    fn decode(body: &str) -> (r: Result<Self, DecodeError>) {
        let tree = Json::parse(body)?;
        TrafficResponse::from_json(&tree)
    }
}

/// What a body gives as a status with a GeoJSON document beside it: the
/// status among the entries of the body read as JSON, then the whole body
/// read as GeoJSON.
pub open spec fn spec_geo_response(tree: Json, geo: Result<GeoJson, DecodeErrorView>) -> Result<
    (StatusView, GeoJson),
    DecodeErrorView,
> {
    match spec_object(tree) {
        Err(e) => Err(e),
        Ok(fields) => match spec_status(fields) {
            Err(e) => Err(e),
            Ok(status) => match geo {
                Err(e) => Err(e),
                Ok(document) => Ok((status, document)),
            },
        },
    }
}

/// The mathematical content of the outcome of reading a GeoJSON document.
pub open spec fn geo_outcome(geo: Result<GeoJson, DecodeError>) -> Result<
    GeoJson,
    DecodeErrorView,
> {
    match geo {
        Ok(document) => Ok(document),
        Err(e) => Err(e@),
    }
}

/// Reads the status from a document and puts the GeoJSON beside it.
fn geo_response(tree: &Json, geo: Result<GeoJson, DecodeError>) -> (r: Result<
    (Status, GeoJson),
    DecodeError,
>)
    ensures
        match r {
            Ok((status, document)) => spec_geo_response(*tree, geo_outcome(geo)) == Ok::<
                _,
                DecodeErrorView,
            >((status@, document)),
            Err(e) => spec_geo_response(*tree, geo_outcome(geo)) == Err::<
                (StatusView, GeoJson),
                _,
            >(e@),
        },
{
    let fields = object(tree)?;
    let status = Status::from_fields(fields)?;
    let document = geo?;
    Ok((status, document))
}

/// Response to a request for the live traffic snapshot.
#[derive(Debug)]
pub struct TrafficSnapshotResponse {
    status: Status,
    geo: GeoJson,
}

impl TrafficSnapshotResponse {
    /// The GeoJSON document of the response, whatever its status.
    pub closed spec fn spec_snapshot(&self) -> GeoJson {
        self.geo
    }

    /// How the outcome of reading compares with what reading has to give.
    pub open spec fn read_as(
        tree: Json,
        geo: Result<GeoJson, DecodeErrorView>,
        r: Result<TrafficSnapshotResponse, DecodeError>,
    ) -> bool {
        match r {
            Ok(response) => spec_geo_response(tree, geo) == Ok::<_, DecodeErrorView>(
                (response.spec_status(), response.spec_snapshot()),
            ),
            Err(e) => spec_geo_response(tree, geo) == Err::<(StatusView, GeoJson), _>(e@),
        }
    }

    /// A response with the given status and GeoJSON document.
    pub fn new(status: Status, geo: GeoJson) -> (r: TrafficSnapshotResponse)
        ensures
            r.spec_status() == status@,
            r.spec_snapshot() == geo,
    {
        TrafficSnapshotResponse { status, geo }
    }

    /// Puts together the response from the body read as JSON and the
    /// outcome of reading it as GeoJSON.
    pub fn from_parts(tree: &Json, geo: Result<GeoJson, DecodeError>) -> (r: Result<
        TrafficSnapshotResponse,
        DecodeError,
    >)
        ensures
            Self::read_as(*tree, geo_outcome(geo), r),
    {
        let (status, geo) = geo_response(tree, geo)?;
        Ok(TrafficSnapshotResponse { status, geo })
    }

    /// Get a reference to the GeoJSON data from the response: handed out
    /// only where the status reports success.
    pub fn snapshot(&self) -> (r: Result<&GeoJson, Error>)
        ensures
            match r {
                Ok(payload) => spec_guarded(self.spec_status(), self.spec_snapshot()) == Ok::<
                    _,
                    ErrorView,
                >(*payload),
                Err(e) => spec_guarded(self.spec_status(), self.spec_snapshot()) is Err && spec_guarded(
                    self.spec_status(),
                    self.spec_snapshot(),
                )->Err_0 == e@,
            },
    {
        self.status.try_to_error()?;
        Ok(&self.geo)
    }

    /// Take the GeoJSON data from the response: handed out only where the
    /// status reports success.
    pub fn take_snapshot(self) -> (r: Result<GeoJson, Error>)
        ensures
            match r {
                Ok(payload) => spec_guarded(self.spec_status(), self.spec_snapshot()) == Ok::<
                    _,
                    ErrorView,
                >(payload),
                Err(e) => spec_guarded(self.spec_status(), self.spec_snapshot()) is Err && spec_guarded(
                    self.spec_status(),
                    self.spec_snapshot(),
                )->Err_0 == e@,
            },
    {
        self.status.try_into_error()?;
        Ok(self.geo)
    }
}

impl Response for TrafficSnapshotResponse {
    closed spec fn spec_status(&self) -> StatusView {
        self.status@
    }

    open spec fn decoded(body: Seq<char>, r: Result<Self, DecodeError>) -> bool {
        match Json::spec_parse(body) {
            Err(m) => r is Err && r->Err_0@ == DecodeErrorView::Syntax(m),
            Ok(tree) => Self::read_as(tree, spec_read_geojson(body), r),
        }
    }

    fn status(&self) -> (status: &Status) {
        &self.status
    }

    fn decode(body: &str) -> (r: Result<Self, DecodeError>) {
        let tree = Json::parse(body)?;
        TrafficSnapshotResponse::from_parts(&tree, read_geojson(body))
    }
}

/// Response to a request for segments: all of them, or the one with an
/// identifier.
#[derive(Debug)]
pub struct SegmentResponse {
    status: Status,
    segment: GeoJson,
}

impl SegmentResponse {
    /// The GeoJSON document of the response, whatever its status.
    pub closed spec fn spec_segments(&self) -> GeoJson {
        self.segment
    }

    /// How the outcome of reading compares with what reading has to give.
    pub open spec fn read_as(
        tree: Json,
        geo: Result<GeoJson, DecodeErrorView>,
        r: Result<SegmentResponse, DecodeError>,
    ) -> bool {
        match r {
            Ok(response) => spec_geo_response(tree, geo) == Ok::<_, DecodeErrorView>(
                (response.spec_status(), response.spec_segments()),
            ),
            Err(e) => spec_geo_response(tree, geo) == Err::<(StatusView, GeoJson), _>(e@),
        }
    }

    /// A response with the given status and GeoJSON document.
    pub fn new(status: Status, segment: GeoJson) -> (r: SegmentResponse)
        ensures
            r.spec_status() == status@,
            r.spec_segments() == segment,
    {
        SegmentResponse { status, segment }
    }

    /// Puts together the response from the body read as JSON and the
    /// outcome of reading it as GeoJSON.
    pub fn from_parts(tree: &Json, geo: Result<GeoJson, DecodeError>) -> (r: Result<
        SegmentResponse,
        DecodeError,
    >)
        ensures
            Self::read_as(*tree, geo_outcome(geo), r),
    {
        let (status, segment) = geo_response(tree, geo)?;
        Ok(SegmentResponse { status, segment })
    }

    /// Get a reference to the GeoJSON data for the segments: handed out only
    /// where the status reports success.
    pub fn segments(&self) -> (r: Result<&GeoJson, Error>)
        ensures
            match r {
                Ok(payload) => spec_guarded(self.spec_status(), self.spec_segments()) == Ok::<
                    _,
                    ErrorView,
                >(*payload),
                Err(e) => spec_guarded(self.spec_status(), self.spec_segments()) is Err && spec_guarded(
                    self.spec_status(),
                    self.spec_segments(),
                )->Err_0 == e@,
            },
    {
        self.status.try_to_error()?;
        Ok(&self.segment)
    }

    /// Take the GeoJSON data of the segments: handed out only where the
    /// status reports success.
    pub fn take_segments(self) -> (r: Result<GeoJson, Error>)
        ensures
            match r {
                Ok(payload) => spec_guarded(self.spec_status(), self.spec_segments()) == Ok::<
                    _,
                    ErrorView,
                >(payload),
                Err(e) => spec_guarded(self.spec_status(), self.spec_segments()) is Err && spec_guarded(
                    self.spec_status(),
                    self.spec_segments(),
                )->Err_0 == e@,
            },
    {
        self.status.try_into_error()?;
        Ok(self.segment)
    }
}

impl Response for SegmentResponse {
    closed spec fn spec_status(&self) -> StatusView {
        self.status@
    }

    open spec fn decoded(body: Seq<char>, r: Result<Self, DecodeError>) -> bool {
        match Json::spec_parse(body) {
            Err(m) => r is Err && r->Err_0@ == DecodeErrorView::Syntax(m),
            Ok(tree) => Self::read_as(tree, spec_read_geojson(body), r),
        }
    }

    fn status(&self) -> (status: &Status) {
        &self.status
    }

    fn decode(body: &str) -> (r: Result<Self, DecodeError>) {
        let tree = Json::parse(body)?;
        SegmentResponse::from_parts(&tree, read_geojson(body))
    }
}

/// Asking for the payload of a response gives the payload unchanged where the
/// status code is at most 299, and above that the error that carries exactly
/// the code and the message of the status.
pub proof fn lemma_payload_follows_status<T>(status: StatusView, payload: T)
    ensures
        status.status_code <= 299 ==> spec_guarded(status, payload) == Ok::<T, ErrorView>(payload),
        status.status_code > 299 ==> spec_guarded(status, payload) == Err::<T, ErrorView>(
            ErrorView::Non200Response(status),
        ),
{
}

/// Of a body that was read as a response with cameras: with a status code of
/// at most 299 in the body, asking for the cameras gives those of the body;
/// with a higher one it gives the error with the code and message of the body.
pub proof fn lemma_cameras_of_body(body: Seq<char>, response: CamerasResponse)
    requires
        CamerasResponse::decoded(body, Ok(response)),
    ensures
        Json::spec_parse(body) is Ok,
        CamerasResponse::spec_from_json(Json::spec_parse(body)->Ok_0) is Ok,
        ({
            let (status, cameras) = CamerasResponse::spec_from_json(
                Json::spec_parse(body)->Ok_0,
            )->Ok_0;
            let asked = spec_guarded(response.spec_status(), response.spec_cameras());
            &&& status.status_code <= 299 ==> asked is Ok && camera_views(asked->Ok_0) == cameras
            &&& status.status_code > 299 ==> asked == Err::<Seq<Camera>, _>(
                ErrorView::Non200Response(status),
            )
        }),
{
}

/// Of a body that was read as a response with reports: with a status code of
/// at most 299 in the body, asking for the reports gives those of the body;
/// with a higher one it gives the error with the code and message of the body.
pub proof fn lemma_reports_of_body(body: Seq<char>, response: TrafficResponse)
    requires
        TrafficResponse::decoded(body, Ok(response)),
    ensures
        Json::spec_parse(body) is Ok,
        TrafficResponse::spec_from_json(Json::spec_parse(body)->Ok_0) is Ok,
        ({
            let (status, reports) = TrafficResponse::spec_from_json(
                Json::spec_parse(body)->Ok_0,
            )->Ok_0;
            let asked = spec_guarded(response.spec_status(), response.spec_reports());
            &&& status.status_code <= 299 ==> asked is Ok && report_views(asked->Ok_0) == reports
            &&& status.status_code > 299 ==> asked == Err::<Seq<Report>, _>(
                ErrorView::Non200Response(status),
            )
        }),
{
}

/// Of a body that was read as a traffic snapshot: with a status code of at
/// most 299 in the body, asking for the snapshot gives the GeoJSON document
/// of the body; with a higher one it gives the error with the code and
/// message of the body.
pub proof fn lemma_snapshot_of_body(body: Seq<char>, response: TrafficSnapshotResponse)
    requires
        TrafficSnapshotResponse::decoded(body, Ok(response)),
    ensures
        Json::spec_parse(body) is Ok,
        spec_geo_response(Json::spec_parse(body)->Ok_0, spec_read_geojson(body)) is Ok,
        ({
            let (status, document) = spec_geo_response(
                Json::spec_parse(body)->Ok_0,
                spec_read_geojson(body),
            )->Ok_0;
            let asked = spec_guarded(response.spec_status(), response.spec_snapshot());
            &&& spec_read_geojson(body) == Ok::<_, DecodeErrorView>(document)
            &&& status.status_code <= 299 ==> asked == Ok::<_, ErrorView>(document)
            &&& status.status_code > 299 ==> asked == Err::<GeoJson, _>(
                ErrorView::Non200Response(status),
            )
        }),
{
}

/// Of a body that was read as a response with segments: with a status code
/// of at most 299 in the body, asking for the segments gives the GeoJSON
/// document of the body; with a higher one it gives the error with the code
/// and message of the body.
pub proof fn lemma_segments_of_body(body: Seq<char>, response: SegmentResponse)
    requires
        SegmentResponse::decoded(body, Ok(response)),
    ensures
        Json::spec_parse(body) is Ok,
        spec_geo_response(Json::spec_parse(body)->Ok_0, spec_read_geojson(body)) is Ok,
        ({
            let (status, document) = spec_geo_response(
                Json::spec_parse(body)->Ok_0,
                spec_read_geojson(body),
            )->Ok_0;
            let asked = spec_guarded(response.spec_status(), response.spec_segments());
            &&& spec_read_geojson(body) == Ok::<_, DecodeErrorView>(document)
            &&& status.status_code <= 299 ==> asked == Ok::<_, ErrorView>(document)
            &&& status.status_code > 299 ==> asked == Err::<GeoJson, _>(
                ErrorView::Non200Response(status),
            )
        }),
{
}

} // verus!
