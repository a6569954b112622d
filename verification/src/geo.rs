//! GeoJSON payloads, read by the `geojson` crate and carried as they are.

use crate::error::{DecodeError, DecodeErrorView};
use geojson::GeoJson;
use vstd::prelude::*;

verus! {

/// Makes `geojson::GeoJson` known as a type; a document is carried from the
/// reader to the caller, and nothing of what it holds is looked at.
#[verifier::external_type_specification]
#[verifier::external_body]
pub struct ExGeoJson(GeoJson);

/// What `GeoJson::from_str` makes of a text: the document, or the message of
/// the error it reports.
pub uninterp spec fn geojson_document(text: Seq<char>) -> Result<GeoJson, Seq<char>>;

/// Calls `<GeoJson as FromStr>::from_str`. Trusted: the result is
/// `geojson_document` of the text, the error rendered by its `Display`.
#[verifier::external_body]
fn parse_geojson(text: &str) -> (r: Result<GeoJson, String>)
    ensures
        match r {
            Ok(g) => geojson_document(text@) == Ok::<GeoJson, Seq<char>>(g),
            Err(m) => geojson_document(text@) == Err::<GeoJson, Seq<char>>(m@),
        },
{
    text.parse::<GeoJson>().map_err(|e| e.to_string())
}

/// The GeoJSON document that a text holds, or the error that says why it
/// holds none.
pub open spec fn spec_read_geojson(text: Seq<char>) -> Result<GeoJson, DecodeErrorView> {
    match geojson_document(text) {
        Ok(g) => Ok(g),
        Err(m) => Err(DecodeErrorView::GeoJson(m)),
    }
}

/// How the outcome of reading a text compares with what reading has to give.
pub open spec fn geojson_read_as(
    text: Seq<char>,
    r: Result<GeoJson, DecodeError>,
) -> bool {
    match r {
        Ok(g) => spec_read_geojson(text) == Ok::<_, DecodeErrorView>(g),
        Err(e) => spec_read_geojson(text) == Err::<GeoJson, _>(e@),
    }
}

/// Reads a GeoJSON document from `text`.
pub fn read_geojson(text: &str) -> (r: Result<GeoJson, DecodeError>)
    ensures
        geojson_read_as(text@, r),
{
    match parse_geojson(text) {
        Ok(g) => Ok(g),
        Err(message) => Err(DecodeError::GeoJson(message)),
    }
}

} // verus!
