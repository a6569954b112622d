//! What can go wrong between a response body and its payload.

use crate::response::{Status, StatusView};
use crate::time::digit_char;
use vstd::prelude::*;

verus! {

/// What a payload accessor reports in place of a payload.
#[derive(Debug)]
pub enum Error {
    /// The service answered with a status code above 299; holds the status
    /// as it came.
    Non200Response(Status),
}

/// The mathematical content of an [`Error`].
pub enum ErrorView {
    Non200Response(StatusView),
}

impl View for Error {
    type V = ErrorView;

    open spec fn view(&self) -> ErrorView {
        match self {
            Error::Non200Response(status) => ErrorView::Non200Response(status@),
        }
    }
}

/// Why a response body could not be turned into a typed response.
#[derive(Debug, PartialEq, Eq)]
pub enum DecodeError {
    /// The body is not a JSON document; holds the parser's message.
    Syntax(String),
    /// A JSON object was expected and something else was found.
    NotAnObject,
    /// The named field is required and absent.
    MissingField(String),
    /// The named field is present under two of its names.
    DuplicateField(String),
    /// The named field holds a value of the wrong JSON type, or a number
    /// outside the range of the field.
    InvalidType(String),
    /// A field that takes `"yes"` or `"no"` holds this other text.
    UnknownVariant(String),
    /// A field that takes a timestamp holds this text, which is none.
    InvalidTimestamp(String),
    /// The body is JSON but no GeoJSON document; holds the reader's message.
    GeoJson(String),
}

/// The mathematical content of a [`DecodeError`].
pub enum DecodeErrorView {
    Syntax(Seq<char>),
    NotAnObject,
    MissingField(Seq<char>),
    DuplicateField(Seq<char>),
    InvalidType(Seq<char>),
    UnknownVariant(Seq<char>),
    InvalidTimestamp(Seq<char>),
    GeoJson(Seq<char>),
}

impl View for DecodeError {
    type V = DecodeErrorView;

    open spec fn view(&self) -> DecodeErrorView {
        match self {
            DecodeError::Syntax(m) => DecodeErrorView::Syntax(m@),
            DecodeError::NotAnObject => DecodeErrorView::NotAnObject,
            DecodeError::MissingField(n) => DecodeErrorView::MissingField(n@),
            DecodeError::DuplicateField(n) => DecodeErrorView::DuplicateField(n@),
            DecodeError::InvalidType(n) => DecodeErrorView::InvalidType(n@),
            DecodeError::UnknownVariant(v) => DecodeErrorView::UnknownVariant(v@),
            DecodeError::InvalidTimestamp(t) => DecodeErrorView::InvalidTimestamp(t@),
            DecodeError::GeoJson(m) => DecodeErrorView::GeoJson(m@),
        }
    }
}

/// A number written in decimal digits, without leading zeros.
pub open spec fn spec_decimal(n: nat) -> Seq<char>
    decreases n,
{
    if n < 10 {
        seq![digit_char(n as int)]
    } else {
        spec_decimal(n / 10).push(digit_char((n % 10) as int))
    }
}

/// What an [`Error`] says of itself: `status_code:`, the code, a colon and
/// the message.
pub open spec fn spec_describe(e: ErrorView) -> Seq<char> {
    match e {
        ErrorView::Non200Response(status) => "status_code:"@ + spec_decimal(status.status_code)
            + ":"@ + status.message,
    }
}

/// The text of one decimal digit.
fn digit_text(d: usize) -> (text: &'static str)
    requires
        d < 10,
    ensures
        text@ == seq![digit_char(d as int)],
{
    proof {
        reveal_strlit("0");
        reveal_strlit("1");
        reveal_strlit("2");
        reveal_strlit("3");
        reveal_strlit("4");
        reveal_strlit("5");
        reveal_strlit("6");
        reveal_strlit("7");
        reveal_strlit("8");
        reveal_strlit("9");
    }
    let text = if d == 0 {
        "0"
    } else if d == 1 {
        "1"
    } else if d == 2 {
        "2"
    } else if d == 3 {
        "3"
    } else if d == 4 {
        "4"
    } else if d == 5 {
        "5"
    } else if d == 6 {
        "6"
    } else if d == 7 {
        "7"
    } else if d == 8 {
        "8"
    } else {
        "9"
    };
    assert(text@ =~= seq![digit_char(d as int)]);
    text
}

/// Writes a number in decimal digits.
pub fn decimal(n: usize) -> (text: String)
    ensures
        text@ == spec_decimal(n as nat),
    decreases n,
{
    if n < 10 {
        digit_text(n).to_owned()
    } else {
        let mut text = decimal(n / 10);
        text.append(digit_text(n % 10));
        assert(text@ =~= spec_decimal(n as nat));
        text
    }
}

impl Error {
    /// Says what went wrong, as in `status_code:404:not found`.
    pub fn describe(&self) -> (text: String)
        ensures
            text@ == spec_describe(self@),
    {
        match self {
            Error::Non200Response(status) => {
                let mut text = "status_code:".to_owned();
                text.append(decimal(status.status_code).as_str());
                text.append(":");
                text.append(status.message.as_str());
                text
            },
        }
    }
}

} // verus!
