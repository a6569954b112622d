//! Reading the fields of a JSON object, each by its name and its type.

use crate::error::{DecodeError, DecodeErrorView};
use crate::json::{spec_get, Json, JsonNumber};
use crate::time::Timestamp;
use vstd::prelude::*;

verus! {

/// The entries of a JSON object.
pub type Fields = Vec<(String, Json)>;

/// The integer that a number stands for, where it is written as one.
pub open spec fn spec_integer(n: JsonNumber) -> Option<int> {
    match n {
        JsonNumber::Unsigned(u) => Some(u as int),
        JsonNumber::Signed(i) => Some(i as int),
        JsonNumber::Real(_) => None,
    }
}

/// The entries of `tree`, which has to be an object.
pub open spec fn spec_object(tree: Json) -> Result<Seq<(String, Json)>, DecodeErrorView> {
    match tree {
        Json::Object(fields) => Ok(fields@),
        _ => Err(DecodeErrorView::NotAnObject),
    }
}

/// The text under `name`.
pub open spec fn spec_text_field(fields: Seq<(String, Json)>, name: Seq<char>) -> Result<
    Seq<char>,
    DecodeErrorView,
> {
    match spec_get(fields, name) {
        Some(Json::Text(text)) => Ok(text@),
        Some(_) => Err(DecodeErrorView::InvalidType(name)),
        None => Err(DecodeErrorView::MissingField(name)),
    }
}

/// The truth value under `name`.
pub open spec fn spec_bool_field(fields: Seq<(String, Json)>, name: Seq<char>) -> Result<
    bool,
    DecodeErrorView,
> {
    match spec_get(fields, name) {
        Some(Json::Bool(b)) => Ok(b),
        Some(_) => Err(DecodeErrorView::InvalidType(name)),
        None => Err(DecodeErrorView::MissingField(name)),
    }
}

/// The integer under `name`, which has to lie between `low` and `high`.
pub open spec fn spec_integer_field(
    fields: Seq<(String, Json)>,
    name: Seq<char>,
    low: int,
    high: int,
) -> Result<int, DecodeErrorView> {
    match spec_get(fields, name) {
        Some(Json::Number(n)) => match spec_integer(n) {
            Some(v) if low <= v <= high => Ok(v),
            _ => Err(DecodeErrorView::InvalidType(name)),
        },
        Some(_) => Err(DecodeErrorView::InvalidType(name)),
        None => Err(DecodeErrorView::MissingField(name)),
    }
}

/// The number under `name`, whatever its kind.
pub open spec fn spec_number_field(fields: Seq<(String, Json)>, name: Seq<char>) -> Result<
    JsonNumber,
    DecodeErrorView,
> {
    match spec_get(fields, name) {
        Some(Json::Number(n)) => Ok(n),
        Some(_) => Err(DecodeErrorView::InvalidType(name)),
        None => Err(DecodeErrorView::MissingField(name)),
    }
}

/// Whether every item of a list is a number.
pub open spec fn all_numbers(items: Seq<Json>) -> bool {
    forall|i: int| 0 <= i < items.len() ==> #[trigger] items[i] is Number
}

/// The list of numbers under `name`.
pub open spec fn spec_numbers_field(fields: Seq<(String, Json)>, name: Seq<char>) -> Result<
    Seq<JsonNumber>,
    DecodeErrorView,
> {
    match spec_get(fields, name) {
        Some(Json::Array(items)) => if all_numbers(items@) {
            Ok(Seq::new(items@.len(), |i: int| items@[i]->Number_0))
        } else {
            Err(DecodeErrorView::InvalidType(name))
        },
        Some(_) => Err(DecodeErrorView::InvalidType(name)),
        None => Err(DecodeErrorView::MissingField(name)),
    }
}

/// The instant that a value stands for: a text that `humantime` reads.
pub open spec fn spec_time(value: Json, name: Seq<char>) -> Result<Timestamp, DecodeErrorView> {
    match value {
        Json::Text(text) => match Timestamp::spec_parse(text@) {
            Some(t) => Ok(t),
            None => Err(DecodeErrorView::InvalidTimestamp(text@)),
        },
        _ => Err(DecodeErrorView::InvalidType(name)),
    }
}

/// The instant under `name`.
pub open spec fn spec_time_field(fields: Seq<(String, Json)>, name: Seq<char>) -> Result<
    Timestamp,
    DecodeErrorView,
> {
    match spec_get(fields, name) {
        Some(value) => spec_time(value, name),
        None => Err(DecodeErrorView::MissingField(name)),
    }
}

/// The instant under `name`, or none where `null` stands there. The entry
/// itself has to be there.
pub open spec fn spec_optional_time_field(
    fields: Seq<(String, Json)>,
    name: Seq<char>,
) -> Result<Option<Timestamp>, DecodeErrorView> {
    match spec_get(fields, name) {
        Some(Json::Null) => Ok(None),
        Some(value) => match spec_time(value, name) {
            Ok(t) => Ok(Some(t)),
            Err(e) => Err(e),
        },
        None => Err(DecodeErrorView::MissingField(name)),
    }
}

/// What `"yes"` and `"no"` stand for; any other text is named in the error.
pub open spec fn spec_yes_no(text: Seq<char>) -> Result<bool, DecodeErrorView> {
    if text == "yes"@ {
        Ok(true)
    } else if text == "no"@ {
        Ok(false)
    } else {
        Err(DecodeErrorView::UnknownVariant(text))
    }
}

/// The `"yes"` or `"no"` under `name`.
pub open spec fn spec_yes_no_field(fields: Seq<(String, Json)>, name: Seq<char>) -> Result<
    bool,
    DecodeErrorView,
> {
    match spec_get(fields, name) {
        Some(Json::Text(text)) => spec_yes_no(text@),
        Some(_) => Err(DecodeErrorView::InvalidType(name)),
        None => Err(DecodeErrorView::MissingField(name)),
    }
}

/// The entries of `tree`, which has to be an object.
pub fn object(tree: &Json) -> (r: Result<&Fields, DecodeError>)
    ensures
        match r {
            Ok(fields) => spec_object(*tree) == Ok::<_, DecodeErrorView>(fields@),
            Err(e) => spec_object(*tree) == Err::<Seq<(String, Json)>, _>(e@),
        },
{
    match tree {
        Json::Object(fields) => Ok(fields),
        _ => Err(DecodeError::NotAnObject),
    }
}

/// The text under `name`.
pub fn text_field(fields: &Fields, name: &str) -> (r: Result<String, DecodeError>)
    ensures
        match r {
            Ok(text) => spec_text_field(fields@, name@) == Ok::<_, DecodeErrorView>(text@),
            Err(e) => spec_text_field(fields@, name@) == Err::<Seq<char>, _>(e@),
        },
{
    match Json::get(fields, name) {
        Some(Json::Text(text)) => Ok(text.clone()),
        Some(_) => Err(DecodeError::InvalidType(name.to_owned())),
        None => Err(DecodeError::MissingField(name.to_owned())),
    }
}

/// The truth value under `name`.
pub fn bool_field(fields: &Fields, name: &str) -> (r: Result<bool, DecodeError>)
    ensures
        match r {
            Ok(b) => spec_bool_field(fields@, name@) == Ok::<_, DecodeErrorView>(b),
            Err(e) => spec_bool_field(fields@, name@) == Err::<bool, _>(e@),
        },
{
    match Json::get(fields, name) {
        Some(Json::Bool(b)) => Ok(*b),
        Some(_) => Err(DecodeError::InvalidType(name.to_owned())),
        None => Err(DecodeError::MissingField(name.to_owned())),
    }
}

/// The integer under `name`, which has to fit a `usize`.
pub fn unsigned_field(fields: &Fields, name: &str) -> (r: Result<usize, DecodeError>)
    ensures
        match r {
            Ok(v) => spec_integer_field(fields@, name@, 0, usize::MAX as int) == Ok::<
                _,
                DecodeErrorView,
            >(v as int),
            Err(e) => spec_integer_field(fields@, name@, 0, usize::MAX as int) == Err::<int, _>(
                e@,
            ),
        },
{
    match Json::get(fields, name) {
        Some(Json::Number(JsonNumber::Unsigned(u))) => {
            if *u <= usize::MAX as u64 {
                Ok(*u as usize)
            } else {
                Err(DecodeError::InvalidType(name.to_owned()))
            }
        },
        Some(Json::Number(JsonNumber::Signed(i))) => {
            if 0 <= *i && *i as u64 <= usize::MAX as u64 {
                Ok(*i as usize)
            } else {
                Err(DecodeError::InvalidType(name.to_owned()))
            }
        },
        Some(_) => Err(DecodeError::InvalidType(name.to_owned())),
        None => Err(DecodeError::MissingField(name.to_owned())),
    }
}

/// The integer under `name`, which has to fit an `isize`.
pub fn signed_field(fields: &Fields, name: &str) -> (r: Result<isize, DecodeError>)
    ensures
        match r {
            Ok(v) => spec_integer_field(fields@, name@, isize::MIN as int, isize::MAX as int)
                == Ok::<_, DecodeErrorView>(v as int),
            Err(e) => spec_integer_field(fields@, name@, isize::MIN as int, isize::MAX as int)
                == Err::<int, _>(e@),
        },
{
    match Json::get(fields, name) {
        Some(Json::Number(JsonNumber::Unsigned(u))) => {
            if *u <= isize::MAX as u64 {
                Ok(*u as isize)
            } else {
                Err(DecodeError::InvalidType(name.to_owned()))
            }
        },
        Some(Json::Number(JsonNumber::Signed(i))) => {
            if isize::MIN as i64 <= *i && *i <= isize::MAX as i64 {
                Ok(*i as isize)
            } else {
                Err(DecodeError::InvalidType(name.to_owned()))
            }
        },
        Some(_) => Err(DecodeError::InvalidType(name.to_owned())),
        None => Err(DecodeError::MissingField(name.to_owned())),
    }
}

/// The number under `name`, whatever its kind.
pub fn number_field(fields: &Fields, name: &str) -> (r: Result<JsonNumber, DecodeError>)
    ensures
        match r {
            Ok(n) => spec_number_field(fields@, name@) == Ok::<_, DecodeErrorView>(n),
            Err(e) => spec_number_field(fields@, name@) == Err::<JsonNumber, _>(e@),
        },
{
    match Json::get(fields, name) {
        Some(Json::Number(n)) => Ok(*n),
        Some(_) => Err(DecodeError::InvalidType(name.to_owned())),
        None => Err(DecodeError::MissingField(name.to_owned())),
    }
}

/// The list of numbers under `name`.
pub fn numbers_field(fields: &Fields, name: &str) -> (r: Result<Vec<JsonNumber>, DecodeError>)
    ensures
        match r {
            Ok(list) => spec_numbers_field(fields@, name@) == Ok::<_, DecodeErrorView>(list@),
            Err(e) => spec_numbers_field(fields@, name@) == Err::<Seq<JsonNumber>, _>(e@),
        },
{
    match Json::get(fields, name) {
        Some(Json::Array(items)) => {
            let mut list: Vec<JsonNumber> = Vec::new();
            let mut i: usize = 0;
            while i < items.len()
                invariant
                    spec_get(fields@, name@) == Some(Json::Array(*items)),
                    i <= items.len(),
                    list@.len() == i,
                    forall|k: int| 0 <= k < i ==> #[trigger] items@[k] is Number,
                    forall|k: int| 0 <= k < i ==> list@[k] == (#[trigger] items@[k])->Number_0,
                decreases items.len() - i,
            {
                match &items[i] {
                    Json::Number(n) => {
                        list.push(*n);
                    },
                    _ => {
                        assert(!(items@[i as int] is Number));
                        return Err(DecodeError::InvalidType(name.to_owned()));
                    },
                }
                i += 1;
            }
            assert(list@ =~= Seq::new(items@.len(), |i: int| items@[i]->Number_0));
            Ok(list)
        },
        Some(_) => Err(DecodeError::InvalidType(name.to_owned())),
        None => Err(DecodeError::MissingField(name.to_owned())),
    }
}

/// The instant that a value stands for.
pub fn time(value: &Json, name: &str) -> (r: Result<Timestamp, DecodeError>)
    ensures
        match r {
            Ok(t) => spec_time(*value, name@) == Ok::<_, DecodeErrorView>(t) && t.wf(),
            Err(e) => spec_time(*value, name@) == Err::<Timestamp, _>(e@),
        },
{
    match value {
        Json::Text(text) => match Timestamp::parse(text.as_str()) {
            Some(t) => Ok(t),
            None => Err(DecodeError::InvalidTimestamp(text.clone())),
        },
        _ => Err(DecodeError::InvalidType(name.to_owned())),
    }
}

/// The instant under `name`.
pub fn time_field(fields: &Fields, name: &str) -> (r: Result<Timestamp, DecodeError>)
    ensures
        match r {
            Ok(t) => spec_time_field(fields@, name@) == Ok::<_, DecodeErrorView>(t) && t.wf(),
            Err(e) => spec_time_field(fields@, name@) == Err::<Timestamp, _>(e@),
        },
{
    match Json::get(fields, name) {
        Some(value) => time(value, name),
        None => Err(DecodeError::MissingField(name.to_owned())),
    }
}

/// The instant under `name`, or none where `null` stands there.
pub fn optional_time_field(fields: &Fields, name: &str) -> (r: Result<
    Option<Timestamp>,
    DecodeError,
>)
    ensures
        match r {
            Ok(t) => spec_optional_time_field(fields@, name@) == Ok::<_, DecodeErrorView>(t) && (
            t matches Some(at) ==> at.wf()),
            Err(e) => spec_optional_time_field(fields@, name@) == Err::<Option<Timestamp>, _>(
                e@,
            ),
        },
{
    match Json::get(fields, name) {
        Some(Json::Null) => Ok(None),
        Some(value) => match time(value, name) {
            Ok(t) => Ok(Some(t)),
            Err(e) => Err(e),
        },
        None => Err(DecodeError::MissingField(name.to_owned())),
    }
}

/// The two texts of a truth value differ.
pub proof fn lemma_yes_is_not_no()
    ensures
        "yes"@ != "no"@,
{
    reveal_strlit("yes");
    reveal_strlit("no");
    assert("yes"@.len() == 3);
    assert("no"@.len() == 2);
}

/// Reads `"yes"` as true and `"no"` as false, and names any other text in
/// the error.
pub fn from_yes_no(text: &str) -> (r: Result<bool, DecodeError>)
    ensures
        match r {
            Ok(b) => spec_yes_no(text@) == Ok::<_, DecodeErrorView>(b),
            Err(e) => spec_yes_no(text@) == Err::<bool, _>(e@),
        },
        text@ == "yes"@ ==> r == Ok::<_, DecodeError>(true),
        text@ == "no"@ ==> r == Ok::<_, DecodeError>(false),
        text@ != "yes"@ && text@ != "no"@ ==> r is Err && r->Err_0@
            == DecodeErrorView::UnknownVariant(text@),
{
    proof {
        lemma_yes_is_not_no();
    }
    let given = text.to_owned();
    if given == "yes".to_owned() {
        Ok(true)
    } else if given == "no".to_owned() {
        Ok(false)
    } else {
        Err(DecodeError::UnknownVariant(given))
    }
}

/// Writes true as `"yes"` and false as `"no"`.
pub fn to_yes_no(value: bool) -> (text: &'static str)
    ensures
        text@ == (if value {
            "yes"@
        } else {
            "no"@
        }),
        spec_yes_no(text@) == Ok::<_, DecodeErrorView>(value),
{
    proof {
        lemma_yes_is_not_no();
    }
    if value {
        "yes"
    } else {
        "no"
    }
}

/// The `"yes"` or `"no"` under `name`.
pub fn yes_no_field(fields: &Fields, name: &str) -> (r: Result<bool, DecodeError>)
    ensures
        match r {
            Ok(b) => spec_yes_no_field(fields@, name@) == Ok::<_, DecodeErrorView>(b),
            Err(e) => spec_yes_no_field(fields@, name@) == Err::<bool, _>(e@),
        },
{
    match Json::get(fields, name) {
        Some(Json::Text(text)) => from_yes_no(text.as_str()),
        Some(_) => Err(DecodeError::InvalidType(name.to_owned())),
        None => Err(DecodeError::MissingField(name.to_owned())),
    }
}

/// `"yes"` stands for true and `"no"` for false; any other text is refused
/// with an error that names it.
pub proof fn lemma_yes_no(text: Seq<char>)
    ensures
        text == "yes"@ ==> spec_yes_no(text) == Ok::<bool, DecodeErrorView>(true),
        text == "no"@ ==> spec_yes_no(text) == Ok::<bool, DecodeErrorView>(false),
        text != "yes"@ && text != "no"@ ==> spec_yes_no(text) == Err::<bool, _>(
            DecodeErrorView::UnknownVariant(text),
        ),
{
    lemma_yes_is_not_no();
}

} // verus!
