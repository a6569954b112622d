//! One traffic report: what was counted on a segment in an hour or a day.

use crate::decode::{
    number_field, numbers_field, object, signed_field, spec_integer_field, spec_number_field,
    spec_numbers_field, spec_object, spec_text_field, spec_time_field, text_field, time_field,
    unsigned_field,
};
use crate::error::{DecodeError, DecodeErrorView};
use crate::json::{Json, JsonNumber};
use crate::time::Timestamp;
use vstd::prelude::*;

verus! {

/// Report data of one interval. Counts and shares are kept as the numbers
/// that the service sent.
#[derive(Debug)]
pub struct Report {
    /// The instance identifier for calls at instance level; -1 for calls at
    /// segment level.
    pub instance_id: isize,
    /// The segment identifier for calls at segment level.
    pub segment_id: isize,
    /// The beginning of the reporting interval.
    pub date: Timestamp,
    /// `hourly` or `daily`.
    pub interval: String,
    /// Between 0 and 1: the portion of the interval that was spent counting.
    pub uptime: JsonNumber,
    /// The number of heavy vehicles: anything larger than a car.
    pub heavy: JsonNumber,
    /// The number of cars.
    pub car: JsonNumber,
    /// The number of two-wheelers.
    pub bike: JsonNumber,
    /// The number of pedestrians.
    pub pedestrian: JsonNumber,
    /// Heavy vehicles from the left.
    pub heavy_lft: JsonNumber,
    /// Heavy vehicles from the right.
    pub heavy_rgt: JsonNumber,
    /// Cars from the left.
    pub car_lft: JsonNumber,
    /// Cars from the right.
    pub car_rgt: JsonNumber,
    /// Two-wheelers from the left.
    pub bike_lft: JsonNumber,
    /// Two-wheelers from the right.
    pub bike_rgt: JsonNumber,
    /// Pedestrians from the left.
    pub pedestrian_lft: JsonNumber,
    /// Pedestrians from the right.
    pub pedestrian_rgt: JsonNumber,
    /// A value that the service uses to keep left and right apart when it
    /// adds up several cameras.
    pub direction: usize,
    /// The name of the time zone in which the segment lies.
    pub timezone: String,
    /// The estimated distribution of car speeds in bins of 10 km/h, from 0
    /// to 70 and above, in percent.
    pub car_speed_hist_0to70plus: Vec<JsonNumber>,
    /// The estimated distribution of car speeds in bins of 5 km/h, from 0
    /// to 120 and above, in percent.
    pub car_speed_hist_0to120plus: Vec<JsonNumber>,
    /// The speed in km/h that 85% of all cars keep to.
    pub v85: JsonNumber,
}

/// The mathematical content of a [`Report`].
pub struct ReportView {
    pub instance_id: int,
    pub segment_id: int,
    pub date: Timestamp,
    pub interval: Seq<char>,
    pub uptime: JsonNumber,
    pub heavy: JsonNumber,
    pub car: JsonNumber,
    pub bike: JsonNumber,
    pub pedestrian: JsonNumber,
    pub heavy_lft: JsonNumber,
    pub heavy_rgt: JsonNumber,
    pub car_lft: JsonNumber,
    pub car_rgt: JsonNumber,
    pub bike_lft: JsonNumber,
    pub bike_rgt: JsonNumber,
    pub pedestrian_lft: JsonNumber,
    pub pedestrian_rgt: JsonNumber,
    pub direction: int,
    pub timezone: Seq<char>,
    pub car_speed_hist_0to70plus: Seq<JsonNumber>,
    pub car_speed_hist_0to120plus: Seq<JsonNumber>,
    pub v85: JsonNumber,
}

impl View for Report {
    type V = ReportView;

    open spec fn view(&self) -> ReportView {
        ReportView {
            instance_id: self.instance_id as int,
            segment_id: self.segment_id as int,
            date: self.date,
            interval: self.interval@,
            uptime: self.uptime,
            heavy: self.heavy,
            car: self.car,
            bike: self.bike,
            pedestrian: self.pedestrian,
            heavy_lft: self.heavy_lft,
            heavy_rgt: self.heavy_rgt,
            car_lft: self.car_lft,
            car_rgt: self.car_rgt,
            bike_lft: self.bike_lft,
            bike_rgt: self.bike_rgt,
            pedestrian_lft: self.pedestrian_lft,
            pedestrian_rgt: self.pedestrian_rgt,
            direction: self.direction as int,
            timezone: self.timezone@,
            car_speed_hist_0to70plus: self.car_speed_hist_0to70plus@,
            car_speed_hist_0to120plus: self.car_speed_hist_0to120plus@,
            v85: self.v85,
        }
    }
}

/// The report that the entries of an object describe: every field under its
/// own name and of its own type, or the error of the first field, in the
/// order of the fields of [`Report`], that is not.
pub open spec fn spec_report_fields(f: Seq<(String, Json)>) -> Result<ReportView, DecodeErrorView> {
    let instance_id = spec_integer_field(f, "instance_id"@, isize::MIN as int, isize::MAX as int);
    let segment_id = spec_integer_field(f, "segment_id"@, isize::MIN as int, isize::MAX as int);
    let date = spec_time_field(f, "date"@);
    let interval = spec_text_field(f, "interval"@);
    let uptime = spec_number_field(f, "uptime"@);
    let heavy = spec_number_field(f, "heavy"@);
    let car = spec_number_field(f, "car"@);
    let bike = spec_number_field(f, "bike"@);
    let pedestrian = spec_number_field(f, "pedestrian"@);
    let heavy_lft = spec_number_field(f, "heavy_lft"@);
    let heavy_rgt = spec_number_field(f, "heavy_rgt"@);
    let car_lft = spec_number_field(f, "car_lft"@);
    let car_rgt = spec_number_field(f, "car_rgt"@);
    let bike_lft = spec_number_field(f, "bike_lft"@);
    let bike_rgt = spec_number_field(f, "bike_rgt"@);
    let pedestrian_lft = spec_number_field(f, "pedestrian_lft"@);
    let pedestrian_rgt = spec_number_field(f, "pedestrian_rgt"@);
    let direction = spec_integer_field(f, "direction"@, 0, usize::MAX as int);
    let timezone = spec_text_field(f, "timezone"@);
    let car_speed_hist_0to70plus = spec_numbers_field(f, "car_speed_hist_0to70plus"@);
    let car_speed_hist_0to120plus = spec_numbers_field(f, "car_speed_hist_0to120plus"@);
    let v85 = spec_number_field(f, "v85"@);
    if instance_id is Err {
        Err(instance_id->Err_0)
    } else if segment_id is Err {
        Err(segment_id->Err_0)
    } else if date is Err {
        Err(date->Err_0)
    } else if interval is Err {
        Err(interval->Err_0)
    } else if uptime is Err {
        Err(uptime->Err_0)
    } else if heavy is Err {
        Err(heavy->Err_0)
    } else if car is Err {
        Err(car->Err_0)
    } else if bike is Err {
        Err(bike->Err_0)
    } else if pedestrian is Err {
        Err(pedestrian->Err_0)
    } else if heavy_lft is Err {
        Err(heavy_lft->Err_0)
    } else if heavy_rgt is Err {
        Err(heavy_rgt->Err_0)
    } else if car_lft is Err {
        Err(car_lft->Err_0)
    } else if car_rgt is Err {
        Err(car_rgt->Err_0)
    } else if bike_lft is Err {
        Err(bike_lft->Err_0)
    } else if bike_rgt is Err {
        Err(bike_rgt->Err_0)
    } else if pedestrian_lft is Err {
        Err(pedestrian_lft->Err_0)
    } else if pedestrian_rgt is Err {
        Err(pedestrian_rgt->Err_0)
    } else if direction is Err {
        Err(direction->Err_0)
    } else if timezone is Err {
        Err(timezone->Err_0)
    } else if car_speed_hist_0to70plus is Err {
        Err(car_speed_hist_0to70plus->Err_0)
    } else if car_speed_hist_0to120plus is Err {
        Err(car_speed_hist_0to120plus->Err_0)
    } else if v85 is Err {
        Err(v85->Err_0)
    } else {
        Ok(
            ReportView {
                instance_id: instance_id->Ok_0,
                segment_id: segment_id->Ok_0,
                date: date->Ok_0,
                interval: interval->Ok_0,
                uptime: uptime->Ok_0,
                heavy: heavy->Ok_0,
                car: car->Ok_0,
                bike: bike->Ok_0,
                pedestrian: pedestrian->Ok_0,
                heavy_lft: heavy_lft->Ok_0,
                heavy_rgt: heavy_rgt->Ok_0,
                car_lft: car_lft->Ok_0,
                car_rgt: car_rgt->Ok_0,
                bike_lft: bike_lft->Ok_0,
                bike_rgt: bike_rgt->Ok_0,
                pedestrian_lft: pedestrian_lft->Ok_0,
                pedestrian_rgt: pedestrian_rgt->Ok_0,
                direction: direction->Ok_0,
                timezone: timezone->Ok_0,
                car_speed_hist_0to70plus: car_speed_hist_0to70plus->Ok_0,
                car_speed_hist_0to120plus: car_speed_hist_0to120plus->Ok_0,
                v85: v85->Ok_0,
            },
        )
    }
}

/// The report that a document describes.
pub open spec fn spec_report(tree: Json) -> Result<ReportView, DecodeErrorView> {
    match spec_object(tree) {
        Err(e) => Err(e),
        Ok(fields) => spec_report_fields(fields),
    }
}

/// The reports that the items of a list describe, or the error of the first
/// item that describes none.
pub open spec fn spec_report_list(items: Seq<Json>) -> Result<Seq<ReportView>, DecodeErrorView>
    decreases items.len(),
{
    if items.len() == 0 {
        Ok(Seq::empty())
    } else {
        match spec_report_list(items.drop_last()) {
            Err(e) => Err(e),
            Ok(before) => match spec_report(items.last()) {
                Err(e) => Err(e),
                Ok(report) => Ok(before.push(report)),
            },
        }
    }
}

/// The contents of a list of reports.
pub open spec fn report_views(list: Seq<Report>) -> Seq<ReportView> {
    Seq::new(list.len(), |i: int| list[i]@)
}

impl Report {
    /// Whether the instant of the report has an RFC 3339 text.
    pub open spec fn wf(&self) -> bool {
        self.date.wf()
    }

    /// Reads a report from a document.
    pub fn from_json(tree: &Json) -> (r: Result<Report, DecodeError>)
        ensures
            match r {
                Ok(report) => spec_report(*tree) == Ok::<_, DecodeErrorView>(report@)
                    && report.wf(),
                Err(e) => spec_report(*tree) == Err::<ReportView, _>(e@),
            },
    {
        let f = object(tree)?;
        let instance_id = signed_field(f, "instance_id")?;
        let segment_id = signed_field(f, "segment_id")?;
        let date = time_field(f, "date")?;
        let interval = text_field(f, "interval")?;
        let uptime = number_field(f, "uptime")?;
        let heavy = number_field(f, "heavy")?;
        let car = number_field(f, "car")?;
        let bike = number_field(f, "bike")?;
        let pedestrian = number_field(f, "pedestrian")?;
        let heavy_lft = number_field(f, "heavy_lft")?;
        let heavy_rgt = number_field(f, "heavy_rgt")?;
        let car_lft = number_field(f, "car_lft")?;
        let car_rgt = number_field(f, "car_rgt")?;
        let bike_lft = number_field(f, "bike_lft")?;
        let bike_rgt = number_field(f, "bike_rgt")?;
        let pedestrian_lft = number_field(f, "pedestrian_lft")?;
        let pedestrian_rgt = number_field(f, "pedestrian_rgt")?;
        let direction = unsigned_field(f, "direction")?;
        let timezone = text_field(f, "timezone")?;
        let car_speed_hist_0to70plus = numbers_field(f, "car_speed_hist_0to70plus")?;
        let car_speed_hist_0to120plus = numbers_field(f, "car_speed_hist_0to120plus")?;
        let v85 = number_field(f, "v85")?;
        Ok(
            Report {
                instance_id,
                segment_id,
                date,
                interval,
                uptime,
                heavy,
                car,
                bike,
                pedestrian,
                heavy_lft,
                heavy_rgt,
                car_lft,
                car_rgt,
                bike_lft,
                bike_rgt,
                pedestrian_lft,
                pedestrian_rgt,
                direction,
                timezone,
                car_speed_hist_0to70plus,
                car_speed_hist_0to120plus,
                v85,
            },
        )
    }

    /// Reads the reports that the items of a list describe.
    pub fn list_from_json(items: &Vec<Json>) -> (r: Result<Vec<Report>, DecodeError>)
        ensures
            match r {
                Ok(list) => spec_report_list(items@) == Ok::<_, DecodeErrorView>(report_views(list@))
                    && forall|i: int| 0 <= i < list@.len() ==> (#[trigger] list@[i]).wf(),
                Err(e) => spec_report_list(items@) == Err::<Seq<ReportView>, _>(e@),
            },
    {
        let mut list: Vec<Report> = Vec::new();
        let mut i: usize = 0;
        assert(items@.take(0) =~= Seq::<Json>::empty());
        assert(report_views(list@) =~= Seq::<ReportView>::empty());
        while i < items.len()
            invariant
                i <= items.len(),
                list@.len() == i,
                spec_report_list(items@.take(i as int)) == Ok::<_, DecodeErrorView>(
                    report_views(list@),
                ),
                forall|k: int| 0 <= k < list@.len() ==> (#[trigger] list@[k]).wf(),
            decreases items.len() - i,
        {
            let ghost before = items@.take(i as int);
            let ghost upto = items@.take(i + 1);
            assert(upto.drop_last() =~= before);
            assert(upto.last() == items@[i as int]);
            match Report::from_json(&items[i]) {
                Ok(report) => {
                    let ghost done = report_views(list@);
                    list.push(report);
                    assert(report_views(list@) =~= done.push(report@));
                },
                Err(e) => {
                    proof {
                        lemma_reports_fault(items@, i + 1);
                    }
                    return Err(e);
                },
            }
            i += 1;
        }
        assert(items@.take(items@.len() as int) =~= items@);
        Ok(list)
    }
}

/// An error among the first `n` items of a list is the error of the list.
proof fn lemma_reports_fault(items: Seq<Json>, n: int)
    requires
        0 <= n <= items.len(),
        spec_report_list(items.take(n)) is Err,
    ensures
        spec_report_list(items) == spec_report_list(items.take(n)),
    decreases items.len() - n,
{
    if n == items.len() {
        assert(items.take(n) =~= items);
    } else {
        assert(items.take(n + 1).drop_last() =~= items.take(n));
        lemma_reports_fault(items, n + 1);
    }
}

} // verus!
