//! The decisions of the coupon endpoints: which coupon a query selects, and
//! whether a coupon can be used now.

use crate::authentication::text::same_text;
use crate::coupon::coupon_repository::Fields;
use crate::coupon::model::coupon::{
    CouponError, CouponInsert, CouponInsertRequest, CouponResponse, CouponUpdate,
    CouponUpdateRequest, Moment,
};
use crate::coupon::model::coupon_discount::parsed_discount;
use chrono::Datelike;
use vstd::prelude::*;
use vstd::string::*;

verus! {

/// The query of a coupon endpoint: an id, a code, or both.
#[derive(Clone, Debug, PartialEq, Eq)]
pub struct CouponQueryRequest {
    pub id: Option<String>,
    pub code: Option<String>,
}

/// A reading of the clock: the moment, and the name of the day of the week as
/// the calendar library prints it.
#[derive(Clone, Debug, PartialEq, Eq)]
pub struct Now {
    pub moment: Moment,
    pub weekday: String,
}

#[verifier::external_type_specification]
#[verifier::external_body]
pub struct ExParseIntError(std::num::ParseIntError);

/// The number that a text stands for, as `str::parse::<i32>` reads it; `None`
/// where it reads none.
pub uninterp spec fn i32_of_text(text: Seq<char>) -> Option<i32>;

/// The upper-case form of a text, as `str::to_uppercase` gives it.
pub uninterp spec fn uppercase_of(text: Seq<char>) -> Seq<char>;

/// `str::parse::<i32>`: the number written in the text, or the error of the
/// standard library where the text is no `i32`.
#[verifier::external_body]
fn parse_i32(text: &str) -> (r: Result<i32, std::num::ParseIntError>)
    ensures
        match r {
            Ok(number) => i32_of_text(text@) == Some(number),
            Err(_) => i32_of_text(text@) is None,
        },
{
    text.parse::<i32>()
}

/// `str::to_uppercase`: the text with each character replaced by its upper-case
/// form under Unicode's rules.
#[verifier::external_body]
fn to_uppercase(text: &str) -> (upper: String)
    ensures
        upper@ == uppercase_of(text@),
{
    text.to_uppercase()
}

/// `chrono::Utc::now`, with the seconds, the nanoseconds and the printed day of
/// the week of the moment it returned. Nothing is claimed of the reading.
#[verifier::external_body]
fn utc_now() -> Now {
    let now = chrono::Utc::now();
    Now {
        moment: Moment { seconds: now.timestamp(), nanos: now.timestamp_subsec_nanos() },
        weekday: now.date_naive().weekday().to_string(),
    }
}

/// The message for a query that names neither id nor code.
pub open spec fn missing_params_message() -> Seq<char> {
    "Both `id` and `code` params are missing from URL query, one is required."@
}

/// The selection that a query makes, given the number that its id reads as:
/// by that number if there is one, else by the code, else none.
pub open spec fn selection(id: Option<i32>, code: Option<Seq<char>>) -> Result<
    (Option<i32>, Option<Seq<char>>),
    Seq<char>,
> {
    match id {
        Some(number) => Ok((Some(number), None)),
        None => match code {
            Some(text) => Ok((None, Some(text))),
            None => Err(missing_params_message()),
        },
    }
}

/// The view of a selection or its refusal.
pub open spec fn selection_view(r: Result<Fields, CouponError>) -> Result<
    (Option<i32>, Option<Seq<char>>),
    Seq<char>,
> {
    match r {
        Ok(Fields::Id(number)) => Ok((Some(number), None)),
        Ok(Fields::Code(text)) => Ok((None, Some(text@))),
        Ok(Fields::Unspecified) => Ok((None, None)),
        Err(e) => match e {
            CouponError::ValidationError(m) => Err(m@),
            _ => Err(Seq::<char>::empty()),
        },
    }
}

/// The view of a text that may be absent.
pub open spec fn text_view(text: Option<String>) -> Option<Seq<char>> {
    match text {
        Some(t) => Some(t@),
        None => None,
    }
}

/// The number that the id of a query reads as, if it has an id and that reads
/// as a number.
pub open spec fn id_of(id: Option<String>) -> Option<i32> {
    match id {
        Some(text) => i32_of_text(text@),
        None => None,
    }
}

/// Selects by the number if there is one, else by the code; a query with
/// neither is refused as invalid.
pub fn select(id: Option<i32>, code: Option<String>) -> (r: Result<Fields, CouponError>)
    ensures
        selection_view(r) == selection(id, text_view(code)),
        r is Err ==> r->Err_0 is ValidationError,
{
    match id {
        Some(number) => Ok(Fields::Id(number)),
        None => match code {
            Some(text) => Ok(Fields::Code(text)),
            None => Err(
                CouponError::ValidationError(
                    String::from_str(
                        "Both `id` and `code` params are missing from URL query, one is required.",
                    ),
                ),
            ),
        },
    }
}

/// Which coupon a query selects: by id where the id is there and reads as a
/// number, else by code.
pub fn get_by_id_or_code(params: CouponQueryRequest) -> (r: Result<Fields, CouponError>)
    ensures
        selection_view(r) == selection(id_of(params.id), text_view(params.code)),
        r is Err ==> r->Err_0 is ValidationError,
{
    let id = match &params.id {
        Some(text) => match parse_i32(text.as_str()) {
            Ok(number) => Some(number),
            Err(_) => None,
        },
        None => None,
    };
    select(id, params.code)
}

/// The message for a code that another coupon has.
pub open spec fn already_exists_message(code: Seq<char>) -> Seq<char> {
    "Coupon with code `"@ + code + "` already exists."@
}

/// The message for an id that the database gave and that is no `i32`.
pub open spec fn unreadable_id_message() -> Seq<char> {
    "Failed to read inserted_id: out of range integral type conversion attempted"@
}

/// Decides whether a coupon can be inserted, given whether its code is taken.
/// A taken code is a conflict, whatever the other fields hold; a free code
/// with a discount out of range is invalid; else the coupon is ready to insert.
pub fn insert(coupon_request: CouponInsertRequest, exists: bool) -> (r: Result<
    CouponInsert,
    CouponError,
>)
    ensures
        exists ==> r is Err && r->Err_0 is AlreadyExistsError && r->Err_0->AlreadyExistsError_0@
            == already_exists_message(coupon_request.code@),
        !exists ==> match parsed_discount(coupon_request.discount as int) {
            Ok(d) => {
                &&& r is Ok
                &&& r->Ok_0.code == coupon_request.code
                &&& r->Ok_0.discount@ == d
                &&& r->Ok_0.active == coupon_request.active
                &&& r->Ok_0.max_usage_count == coupon_request.max_usage_count
                &&& r->Ok_0.expiration_date == coupon_request.expiration_date
            },
            Err(message) => r is Err && r->Err_0 is ValidationError
                && r->Err_0->ValidationError_0@ == message,
        },
{
    if exists {
        return Err(
            CouponError::AlreadyExistsError(
                String::from_str("Coupon with code `").concat(coupon_request.code.as_str()).concat(
                    "` already exists.",
                ),
            ),
        );
    }
    match CouponInsert::try_from(coupon_request) {
        Ok(coupon) => Ok(coupon),
        Err(message) => Err(CouponError::ValidationError(message)),
    }
}

/// Decides whether an update can be written: its discount must be in range.
pub fn update(coupon_request: CouponUpdateRequest) -> (r: Result<CouponUpdate, CouponError>)
    ensures
        match parsed_discount(coupon_request.discount as int) {
            Ok(d) => {
                &&& r is Ok
                &&& r->Ok_0.discount@ == d
                &&& r->Ok_0.active == coupon_request.active
                &&& r->Ok_0.max_usage_count == coupon_request.max_usage_count
                &&& r->Ok_0.expiration_date == coupon_request.expiration_date
            },
            Err(message) => r is Err && r->Err_0 is ValidationError
                && r->Err_0->ValidationError_0@ == message,
        },
{
    match CouponUpdate::try_from(coupon_request) {
        Ok(coupon) => Ok(coupon),
        Err(message) => Err(CouponError::ValidationError(message)),
    }
}

/// The id of an inserted coupon as the endpoints use it; an id beyond `i32` is
/// an internal error.
pub fn inserted_id(id: u64) -> (r: Result<i32, CouponError>)
    ensures
        id <= i32::MAX ==> r is Ok && r->Ok_0 == id,
        id > i32::MAX ==> r is Err && r->Err_0 is InternalError && r->Err_0->InternalError_0@
            == unreadable_id_message(),
{
    if id <= 2147483647 {
        Ok(id as i32)
    } else {
        Err(
            CouponError::InternalError(
                String::from_str(
                    "Failed to read inserted_id: out of range integral type conversion attempted",
                ),
            ),
        )
    }
}

/// Whether a coupon can be used: it is active, it has an expiration date that
/// has not passed, and the coupon with the code `SEXTOU` needs the day to read
/// `FRIDAY`. Code and day are taken in upper case.
pub open spec fn usable(
    active: bool,
    expiration_date: Option<Moment>,
    now: Moment,
    code_upper: Seq<char>,
    weekday_upper: Seq<char>,
) -> bool {
    &&& active
    &&& expiration_date is Some
    &&& !expiration_date->Some_0.is_before(now)
    &&& (code_upper == "SEXTOU"@ ==> weekday_upper == "FRIDAY"@)
}

/// Decides whether a coupon can be used, from the reading of the clock and
/// the upper-case forms of the coupon's code and of the day.
pub fn is_valid_on(coupon: &CouponResponse, now: &Moment, code_upper: &str, weekday_upper: &str)
    -> (valid: bool)
    ensures
        valid == usable(
            coupon.active,
            coupon.expiration_date,
            *now,
            code_upper@,
            weekday_upper@,
        ),
{
    if !coupon.active {
        return false;
    }
    match &coupon.expiration_date {
        Some(expiration) => {
            if expiration.before(now) {
                return false;
            }
        },
        None => {
            return false;
        },
    }
    if same_text(code_upper, "SEXTOU") {
        if !same_text(weekday_upper, "FRIDAY") {
            return false;
        }
    }
    true
}

/// Whether a coupon can be used at a reading of the clock: the rule of
/// `usable`, on the upper-case forms of the coupon's code and of the day that
/// the reading names.
pub open spec fn usable_at(coupon: CouponResponse, now: Now) -> bool {
    usable(
        coupon.active,
        coupon.expiration_date,
        now.moment,
        uppercase_of(coupon.code@),
        uppercase_of(now.weekday@),
    )
}

/// Decides whether a coupon can be used at a given reading of the clock.
pub fn is_valid_at(coupon: &CouponResponse, now: &Now) -> (valid: bool)
    ensures
        valid == usable_at(*coupon, *now),
{
    let code_upper = to_uppercase(coupon.code.as_str());
    let weekday_upper = to_uppercase(now.weekday.as_str());
    is_valid_on(coupon, &now.moment, code_upper.as_str(), weekday_upper.as_str())
}

/// Decides whether a coupon can be used now: reads the clock once and gives
/// what `is_valid_at` gives for that reading. Which reading that is cannot be
/// said; whatever it is, a coupon that is not active or has no expiration date
/// cannot be used.
pub fn is_valid(coupon: &CouponResponse) -> (valid: bool)
    ensures
        exists|now: Now| valid == #[trigger] usable_at(*coupon, now),
        !coupon.active ==> !valid,
        coupon.expiration_date is None ==> !valid,
{
    let now = utc_now();
    let valid = is_valid_at(coupon, &now);
    assert(valid == usable_at(*coupon, now));
    valid
}

} // verus!
