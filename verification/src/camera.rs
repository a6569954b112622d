//! One camera instance, as the service describes it.

use crate::decode::{
    bool_field, object, optional_time_field, signed_field, spec_bool_field, spec_integer_field,
    spec_object, spec_optional_time_field, spec_text_field, spec_time_field, spec_yes_no_field,
    text_field, time_field, unsigned_field, yes_no_field,
};
use crate::error::{DecodeError, DecodeErrorView};
use crate::json::{spec_get, Json};
use crate::time::Timestamp;
use vstd::prelude::*;

verus! {

/// Details on one camera instance.
#[derive(Debug)]
pub struct Camera {
    /// The unique identifier of the camera instance.
    pub instance_id: isize,
    /// The unique identifier of the camera.
    pub mac: usize,
    /// The unique identifier of the user who has registered this camera.
    pub user_id: isize,
    /// The unique identifier of the street segment where the camera is
    /// installed.
    pub segment_id: isize,
    /// The side of the road on which the camera is installed, relative to
    /// the direction of the segment.
    pub direction: bool,
    /// `active`, `non_active` or `problematic`.
    pub status: String,
    /// Some additional information that the service uses internally.
    pub manual: bool,
    /// When the instance was registered.
    pub time_added: Timestamp,
    /// The last active moment of an archived instance; none for an active
    /// one.
    pub time_end: Option<Timestamp>,
    /// When the last data packet was transferred.
    pub last_data_package: Timestamp,
    /// When the first data packet was transferred.
    pub first_data_package: Timestamp,
    /// Whether pedestrians are expected in the view to the left.
    pub pedestrians_left: bool,
    /// Whether pedestrians are expected in the view to the right.
    pub pedestrians_right: bool,
    /// Whether bikes are expected in the view to the left.
    pub bikes_left: bool,
    /// Whether bikes are expected in the view to the right.
    pub bikes_right: bool,
    /// Whether cars are expected in the view to the left.
    pub cars_left: bool,
    /// Whether cars are expected in the view to the right.
    pub cars_right: bool,
    /// Whether the calibration that tells heavy vehicles from cars is done.
    /// On the wire this is `"yes"` or `"no"`.
    pub is_calibration_done: bool,
}

/// The mathematical content of a [`Camera`].
pub struct CameraView {
    pub instance_id: int,
    pub mac: int,
    pub user_id: int,
    pub segment_id: int,
    pub direction: bool,
    pub status: Seq<char>,
    pub manual: bool,
    pub time_added: Timestamp,
    pub time_end: Option<Timestamp>,
    pub last_data_package: Timestamp,
    pub first_data_package: Timestamp,
    pub pedestrians_left: bool,
    pub pedestrians_right: bool,
    pub bikes_left: bool,
    pub bikes_right: bool,
    pub cars_left: bool,
    pub cars_right: bool,
    pub is_calibration_done: bool,
}

impl View for Camera {
    type V = CameraView;

    open spec fn view(&self) -> CameraView {
        CameraView {
            instance_id: self.instance_id as int,
            mac: self.mac as int,
            user_id: self.user_id as int,
            segment_id: self.segment_id as int,
            direction: self.direction,
            status: self.status@,
            manual: self.manual,
            time_added: self.time_added,
            time_end: self.time_end,
            last_data_package: self.last_data_package,
            first_data_package: self.first_data_package,
            pedestrians_left: self.pedestrians_left,
            pedestrians_right: self.pedestrians_right,
            bikes_left: self.bikes_left,
            bikes_right: self.bikes_right,
            cars_left: self.cars_left,
            cars_right: self.cars_right,
            is_calibration_done: self.is_calibration_done,
        }
    }
}

/// The camera that the entries of an object describe: every field under its
/// own name and of its own type, or the error of the first field, in the
/// order of the fields of [`Camera`], that is not.
pub open spec fn spec_camera_fields(f: Seq<(String, Json)>) -> Result<CameraView, DecodeErrorView> {
    let instance_id = spec_integer_field(f, "instance_id"@, isize::MIN as int, isize::MAX as int);
    let mac = spec_integer_field(f, "mac"@, 0, usize::MAX as int);
    let user_id = spec_integer_field(f, "user_id"@, isize::MIN as int, isize::MAX as int);
    let segment_id = spec_integer_field(f, "segment_id"@, isize::MIN as int, isize::MAX as int);
    let direction = spec_bool_field(f, "direction"@);
    let status = spec_text_field(f, "status"@);
    let manual = spec_bool_field(f, "manual"@);
    let time_added = spec_time_field(f, "time_added"@);
    let time_end = spec_optional_time_field(f, "time_end"@);
    let last_data_package = spec_time_field(f, "last_data_package"@);
    let first_data_package = spec_time_field(f, "first_data_package"@);
    let pedestrians_left = spec_bool_field(f, "pedestrians_left"@);
    let pedestrians_right = spec_bool_field(f, "pedestrians_right"@);
    let bikes_left = spec_bool_field(f, "bikes_left"@);
    let bikes_right = spec_bool_field(f, "bikes_right"@);
    let cars_left = spec_bool_field(f, "cars_left"@);
    let cars_right = spec_bool_field(f, "cars_right"@);
    let is_calibration_done = spec_yes_no_field(f, "is_calibration_done"@);
    if instance_id is Err {
        Err(instance_id->Err_0)
    } else if mac is Err {
        Err(mac->Err_0)
    } else if user_id is Err {
        Err(user_id->Err_0)
    } else if segment_id is Err {
        Err(segment_id->Err_0)
    } else if direction is Err {
        Err(direction->Err_0)
    } else if status is Err {
        Err(status->Err_0)
    } else if manual is Err {
        Err(manual->Err_0)
    } else if time_added is Err {
        Err(time_added->Err_0)
    } else if time_end is Err {
        Err(time_end->Err_0)
    } else if last_data_package is Err {
        Err(last_data_package->Err_0)
    } else if first_data_package is Err {
        Err(first_data_package->Err_0)
    } else if pedestrians_left is Err {
        Err(pedestrians_left->Err_0)
    } else if pedestrians_right is Err {
        Err(pedestrians_right->Err_0)
    } else if bikes_left is Err {
        Err(bikes_left->Err_0)
    } else if bikes_right is Err {
        Err(bikes_right->Err_0)
    } else if cars_left is Err {
        Err(cars_left->Err_0)
    } else if cars_right is Err {
        Err(cars_right->Err_0)
    } else if is_calibration_done is Err {
        Err(is_calibration_done->Err_0)
    } else {
        Ok(
            CameraView {
                instance_id: instance_id->Ok_0,
                mac: mac->Ok_0,
                user_id: user_id->Ok_0,
                segment_id: segment_id->Ok_0,
                direction: direction->Ok_0,
                status: status->Ok_0,
                manual: manual->Ok_0,
                time_added: time_added->Ok_0,
                time_end: time_end->Ok_0,
                last_data_package: last_data_package->Ok_0,
                first_data_package: first_data_package->Ok_0,
                pedestrians_left: pedestrians_left->Ok_0,
                pedestrians_right: pedestrians_right->Ok_0,
                bikes_left: bikes_left->Ok_0,
                bikes_right: bikes_right->Ok_0,
                cars_left: cars_left->Ok_0,
                cars_right: cars_right->Ok_0,
                is_calibration_done: is_calibration_done->Ok_0,
            },
        )
    }
}

/// The camera that a document describes.
pub open spec fn spec_camera(tree: Json) -> Result<CameraView, DecodeErrorView> {
    match spec_object(tree) {
        Err(e) => Err(e),
        Ok(fields) => spec_camera_fields(fields),
    }
}

/// The cameras that the items of a list describe, or the error of the first
/// item that describes none.
pub open spec fn spec_camera_list(items: Seq<Json>) -> Result<Seq<CameraView>, DecodeErrorView>
    decreases items.len(),
{
    if items.len() == 0 {
        Ok(Seq::empty())
    } else {
        match spec_camera_list(items.drop_last()) {
            Err(e) => Err(e),
            Ok(before) => match spec_camera(items.last()) {
                Err(e) => Err(e),
                Ok(camera) => Ok(before.push(camera)),
            },
        }
    }
}

/// The contents of a list of cameras.
pub open spec fn camera_views(list: Seq<Camera>) -> Seq<CameraView> {
    Seq::new(list.len(), |i: int| list[i]@)
}

impl Camera {
    /// Whether every instant of the camera has an RFC 3339 text.
    pub open spec fn wf(&self) -> bool {
        &&& self.time_added.wf()
        &&& self.time_end matches Some(t) ==> t.wf()
        &&& self.last_data_package.wf()
        &&& self.first_data_package.wf()
    }

    /// Reads a camera from a document.
    pub fn from_json(tree: &Json) -> (r: Result<Camera, DecodeError>)
        ensures
            match r {
                Ok(camera) => spec_camera(*tree) == Ok::<_, DecodeErrorView>(camera@)
                    && camera.wf(),
                Err(e) => spec_camera(*tree) == Err::<CameraView, _>(e@),
            },
    {
        let f = object(tree)?;
        let instance_id = signed_field(f, "instance_id")?;
        let mac = unsigned_field(f, "mac")?;
        let user_id = signed_field(f, "user_id")?;
        let segment_id = signed_field(f, "segment_id")?;
        let direction = bool_field(f, "direction")?;
        let status = text_field(f, "status")?;
        let manual = bool_field(f, "manual")?;
        let time_added = time_field(f, "time_added")?;
        let time_end = optional_time_field(f, "time_end")?;
        let last_data_package = time_field(f, "last_data_package")?;
        let first_data_package = time_field(f, "first_data_package")?;
        let pedestrians_left = bool_field(f, "pedestrians_left")?;
        let pedestrians_right = bool_field(f, "pedestrians_right")?;
        let bikes_left = bool_field(f, "bikes_left")?;
        let bikes_right = bool_field(f, "bikes_right")?;
        let cars_left = bool_field(f, "cars_left")?;
        let cars_right = bool_field(f, "cars_right")?;
        let is_calibration_done = yes_no_field(f, "is_calibration_done")?;
        Ok(
            Camera {
                instance_id,
                mac,
                user_id,
                segment_id,
                direction,
                status,
                manual,
                time_added,
                time_end,
                last_data_package,
                first_data_package,
                pedestrians_left,
                pedestrians_right,
                bikes_left,
                bikes_right,
                cars_left,
                cars_right,
                is_calibration_done,
            },
        )
    }

    /// Reads the cameras that the items of a list describe.
    pub fn list_from_json(items: &Vec<Json>) -> (r: Result<Vec<Camera>, DecodeError>)
        ensures
            match r {
                Ok(list) => spec_camera_list(items@) == Ok::<_, DecodeErrorView>(camera_views(list@))
                    && forall|i: int| 0 <= i < list@.len() ==> (#[trigger] list@[i]).wf(),
                Err(e) => spec_camera_list(items@) == Err::<Seq<CameraView>, _>(e@),
            },
    {
        let mut list: Vec<Camera> = Vec::new();
        let mut i: usize = 0;
        assert(items@.take(0) =~= Seq::<Json>::empty());
        assert(camera_views(list@) =~= Seq::<CameraView>::empty());
        while i < items.len()
            invariant
                i <= items.len(),
                list@.len() == i,
                spec_camera_list(items@.take(i as int)) == Ok::<_, DecodeErrorView>(
                    camera_views(list@),
                ),
                forall|k: int| 0 <= k < list@.len() ==> (#[trigger] list@[k]).wf(),
            decreases items.len() - i,
        {
            let ghost before = items@.take(i as int);
            let ghost upto = items@.take(i + 1);
            assert(upto.drop_last() =~= before);
            assert(upto.last() == items@[i as int]);
            match Camera::from_json(&items[i]) {
                Ok(camera) => {
                    let ghost done = camera_views(list@);
                    list.push(camera);
                    assert(camera_views(list@) =~= done.push(camera@));
                },
                Err(e) => {
                    proof {
                        lemma_cameras_fault(items@, i + 1);
                    }
                    return Err(e);
                },
            }
            i += 1;
        }
        assert(items@.take(items@.len() as int) =~= items@);
        Ok(list)
    }
}

/// An error among the first `n` items of a list is the error of the list.
proof fn lemma_cameras_fault(items: Seq<Json>, n: int)
    requires
        0 <= n <= items.len(),
        spec_camera_list(items.take(n)) is Err,
    ensures
        spec_camera_list(items) == spec_camera_list(items.take(n)),
    decreases items.len() - n,
{
    if n == items.len() {
        assert(items.take(n) =~= items);
    } else {
        assert(items.take(n + 1).drop_last() =~= items.take(n));
        lemma_cameras_fault(items, n + 1);
    }
}

/// Of a document that describes a camera: where `null` stands under
/// `time_end`, the camera has no end time; where a text stands there, the end
/// time is the instant that the text stands for.
pub proof fn lemma_end_time(tree: Json)
    requires
        spec_camera(tree) is Ok,
    ensures
        spec_object(tree) is Ok,
        match spec_get(spec_object(tree)->Ok_0, "time_end"@) {
            Some(Json::Null) => spec_camera(tree)->Ok_0.time_end is None,
            Some(Json::Text(text)) => Timestamp::spec_parse(text@) is Some && spec_camera(
                tree,
            )->Ok_0.time_end == Timestamp::spec_parse(text@),
            _ => false,
        },
{
}

} // verus!
