use chrono::{Datelike, NaiveDateTime, Utc};
use coupon_api::coupon::coupon_repository::Fields;
use coupon_api::coupon::coupon_service::{
    get_by_id_or_code, insert, inserted_id, is_valid, is_valid_at, is_valid_on, select, update,
    CouponQueryRequest, Now,
};
use coupon_api::coupon::model::coupon::{
    Coupon, CouponError, CouponInsert, CouponInsertRequest, CouponResponse, CouponUpdate,
    CouponUpdateRequest, Moment,
};

fn moment(text: &str) -> Moment {
    let date = NaiveDateTime::parse_from_str(text, "%Y-%m-%d %H:%M:%S").unwrap();
    Moment { seconds: date.and_utc().timestamp(), nanos: date.and_utc().timestamp_subsec_nanos() }
}

fn get_default_coupon_data(code: String) -> Coupon {
    Coupon {
        id: 123456789,
        code,
        discount: 10,
        max_usage_count: Some(2),
        expiration_date: Some(moment("2100-12-31 00:00:00")),
        active: true,
        date_created: None,
        date_updated: None,
    }
}

fn stored_coupon(code: &str) -> CouponResponse {
    CouponResponse::try_from(get_default_coupon_data(code.to_string())).unwrap()
}

#[test]
fn verify_coupon_returns_true_for_a_valid_coupon() {
    let coupon = stored_coupon("aB3dE6gH9j");
    assert_eq!(is_valid(&coupon).to_string(), "true");
}

#[test]
fn verify_coupon_returns_false_if_not_active() {
    let mut coupon = stored_coupon("aB3dE6gH9j");
    coupon.active = false;
    assert_eq!(is_valid(&coupon).to_string(), "false");
}

#[test]
fn verify_coupon_returns_false_if_expired() {
    let mut coupon = stored_coupon("aB3dE6gH9j");
    coupon.expiration_date = Some(moment("2000-12-31 00:00:00"));
    assert_eq!(is_valid(&coupon).to_string(), "false");
}

#[test]
fn verify_coupon_validates_if_today_is_friday() {
    let coupon = stored_coupon("SEXTOU");

    let response_body = is_valid(&coupon).to_string();

    let weekday = Utc::now().date_naive().weekday().to_string();
    if weekday.to_uppercase() == "FRIDAY" {
        assert_eq!(response_body, "true");
    } else {
        assert_eq!(response_body, "false");
    }
}

#[test]
fn coupon_without_expiration_date_is_not_valid() {
    let mut coupon = stored_coupon("aB3dE6gH9j");
    coupon.expiration_date = None;
    assert!(!is_valid(&coupon));
}

#[test]
fn is_valid_at_compares_the_expiration_with_the_clock() {
    let mut coupon = stored_coupon("CODE");
    coupon.expiration_date = Some(Moment { seconds: 1_000, nanos: 500 });
    let at = |seconds: i64, nanos: u32| Now {
        moment: Moment { seconds, nanos },
        weekday: "Mon".to_string(),
    };

    assert!(is_valid_at(&coupon, &at(999, 999_999_999)));
    assert!(is_valid_at(&coupon, &at(1_000, 499)));
    assert!(is_valid_at(&coupon, &at(1_000, 500)));
    assert!(!is_valid_at(&coupon, &at(1_000, 501)));
    assert!(!is_valid_at(&coupon, &at(1_001, 0)));
}

#[test]
fn is_valid_at_takes_code_and_day_in_any_case() {
    let now = |weekday: &str| Now {
        moment: Moment { seconds: 0, nanos: 0 },
        weekday: weekday.to_string(),
    };

    assert!(is_valid_at(&stored_coupon("SEXTOU"), &now("Friday")));
    assert!(is_valid_at(&stored_coupon("sextou"), &now("friday")));
    assert!(is_valid_at(&stored_coupon("SexTou"), &now("FRIDAY")));
    assert!(!is_valid_at(&stored_coupon("SEXTOU"), &now("Fri")));
    assert!(!is_valid_at(&stored_coupon("sextou"), &now("Monday")));
    assert!(is_valid_at(&stored_coupon("OTHER"), &now("Monday")));
}

#[test]
fn is_valid_on_compares_code_and_day_as_given() {
    let coupon = stored_coupon("whatever");
    let now = Moment { seconds: 0, nanos: 0 };

    assert!(is_valid_on(&coupon, &now, "SEXTOU", "FRIDAY"));
    assert!(!is_valid_on(&coupon, &now, "SEXTOU", "friday"));
    assert!(is_valid_on(&coupon, &now, "sextou", "MONDAY"));
    assert!(is_valid_on(&coupon, &now, "OTHER", "MONDAY"));
}

#[test]
fn moment_orders_by_seconds_then_nanoseconds() {
    let m = |seconds: i64, nanos: u32| Moment { seconds, nanos };
    assert!(m(1, 0).before(&m(2, 0)));
    assert!(m(1, 5).before(&m(1, 6)));
    assert!(m(-1, 999).before(&m(0, 0)));
    assert!(!m(1, 5).before(&m(1, 5)));
    assert!(!m(2, 0).before(&m(1, 999)));
}

#[test]
fn query_with_a_number_as_id_selects_by_id() {
    let query = |id: Option<&str>, code: Option<&str>| CouponQueryRequest {
        id: id.map(str::to_string),
        code: code.map(str::to_string),
    };

    assert_eq!(get_by_id_or_code(query(Some("42"), None)), Ok(Fields::Id(42)));
    assert_eq!(get_by_id_or_code(query(Some("-7"), Some("CODE"))), Ok(Fields::Id(-7)));
    assert_eq!(get_by_id_or_code(query(Some("123456789"), None)), Ok(Fields::Id(123456789)));
}

#[test]
fn query_without_a_number_as_id_selects_by_code() {
    let query = |id: Option<&str>, code: Option<&str>| CouponQueryRequest {
        id: id.map(str::to_string),
        code: code.map(str::to_string),
    };

    assert_eq!(
        get_by_id_or_code(query(None, Some("CODE"))),
        Ok(Fields::Code("CODE".to_string()))
    );
    assert_eq!(
        get_by_id_or_code(query(Some("string"), Some("CODE"))),
        Ok(Fields::Code("CODE".to_string()))
    );
    assert_eq!(
        get_by_id_or_code(query(Some("99999999999"), Some("CODE"))),
        Ok(Fields::Code("CODE".to_string()))
    );
}

#[test]
fn query_with_neither_is_invalid() {
    let missing = || {
        CouponError::ValidationError(
            "Both `id` and `code` params are missing from URL query, one is required."
                .to_string(),
        )
    };

    let none = CouponQueryRequest { id: None, code: None };
    assert_eq!(get_by_id_or_code(none), Err(missing()));
    let not_a_number = CouponQueryRequest { id: Some("string".to_string()), code: None };
    assert_eq!(get_by_id_or_code(not_a_number), Err(missing()));
    assert_eq!(select(None, None), Err(missing()));
    assert_eq!(missing().status_code(), 422);
}

#[test]
fn select_prefers_the_id() {
    assert_eq!(select(Some(3), Some("CODE".to_string())), Ok(Fields::Id(3)));
    assert_eq!(select(Some(3), None), Ok(Fields::Id(3)));
    assert_eq!(select(None, Some("CODE".to_string())), Ok(Fields::Code("CODE".to_string())));
}

#[test]
fn fields_name_their_column() {
    assert_eq!(Fields::Id(1).column(), Some("id"));
    assert_eq!(Fields::Code("x".to_string()).column(), Some("code"));
    assert_eq!(Fields::Unspecified.column(), None);
}

#[test]
fn response_keeps_every_field_of_the_coupon() {
    let response = CouponResponse::try_from(get_default_coupon_data("CODE".to_string())).unwrap();

    assert_eq!(
        response,
        CouponResponse {
            id: 123456789,
            code: "CODE".to_string(),
            discount: 10,
            active: true,
            max_usage_count: Some(2),
            expiration_date: Some(moment("2100-12-31 00:00:00")),
            date_created: None,
            date_updated: None,
        }
    );
}

#[test]
fn insert_request_of_a_coupon_keeps_its_fields() {
    let request = CouponInsertRequest::from(get_default_coupon_data("CODE".to_string()));

    assert_eq!(
        request,
        CouponInsertRequest {
            code: "CODE".to_string(),
            discount: 10,
            active: true,
            max_usage_count: Some(2),
            expiration_date: Some(moment("2100-12-31 00:00:00")),
        }
    );
}

#[test]
fn insert_checks_the_discount() {
    let request = |discount: i32| CouponInsertRequest {
        code: "CODE".to_string(),
        discount,
        active: false,
        max_usage_count: None,
        expiration_date: None,
    };

    let insert = CouponInsert::try_from(request(90)).unwrap();
    assert_eq!(insert.code, "CODE");
    assert_eq!(*insert.discount.as_ref(), 90);
    assert!(!insert.active);
    assert_eq!(insert.max_usage_count, None);
    assert_eq!(insert.expiration_date, None);

    assert_eq!(
        CouponInsert::try_from(request(91)).unwrap_err(),
        "Discount cannot be higher than 90."
    );
    assert_eq!(
        CouponInsert::try_from(request(-1)).unwrap_err(),
        "Discount cannot be less than 0."
    );
}

#[test]
fn update_checks_the_discount() {
    let request = |discount: i32| CouponUpdateRequest {
        discount,
        active: true,
        max_usage_count: Some(5),
        expiration_date: Some(Moment { seconds: 7, nanos: 8 }),
    };

    let update = CouponUpdate::try_from(request(0)).unwrap();
    assert_eq!(*update.discount.as_ref(), 0);
    assert!(update.active);
    assert_eq!(update.max_usage_count, Some(5));
    assert_eq!(update.expiration_date, Some(Moment { seconds: 7, nanos: 8 }));

    assert_eq!(
        CouponUpdate::try_from(request(91)).unwrap_err(),
        "Discount cannot be higher than 90."
    );
    assert_eq!(
        CouponUpdate::try_from(request(-1)).unwrap_err(),
        "Discount cannot be less than 0."
    );
}

#[test]
fn coupon_errors_map_to_their_status() {
    let text = || "message".to_string();
    assert_eq!(CouponError::AlreadyExistsError(text()).status_code(), 409);
    assert_eq!(CouponError::InternalError(text()).status_code(), 500);
    assert_eq!(CouponError::NotFoundError(text()).status_code(), 404);
    assert_eq!(CouponError::ValidationError(text()).status_code(), 422);
    assert_eq!(CouponError::UnexpectedError(text()).status_code(), 500);
    assert_eq!(CouponError::NotFoundError(text()).message(), "message");
}

#[test]
fn insert_of_a_taken_code_is_a_conflict() {
    let request = CouponInsertRequest::from(get_default_coupon_data("TAKEN".to_string()));
    let refused = insert(request, true).unwrap_err();

    assert_eq!(
        refused,
        CouponError::AlreadyExistsError("Coupon with code `TAKEN` already exists.".to_string())
    );
    assert_eq!(refused.status_code(), 409);
}

#[test]
fn the_conflict_comes_before_the_check_of_the_discount() {
    let mut request = CouponInsertRequest::from(get_default_coupon_data("TAKEN".to_string()));
    request.discount = 91;
    assert_eq!(insert(request, true).unwrap_err().status_code(), 409);
}

#[test]
fn insert_of_a_free_code_checks_the_discount() {
    let request = |discount: i32| {
        let mut request = CouponInsertRequest::from(get_default_coupon_data("FREE".to_string()));
        request.discount = discount;
        request
    };

    let coupon = insert(request(10), false).unwrap();
    assert_eq!(coupon.code, "FREE");
    assert_eq!(*coupon.discount.as_ref(), 10);
    assert!(coupon.active);
    assert_eq!(coupon.max_usage_count, Some(2));
    assert_eq!(coupon.expiration_date, Some(moment("2100-12-31 00:00:00")));

    let too_high = insert(request(91), false).unwrap_err();
    assert_eq!(
        too_high,
        CouponError::ValidationError("Discount cannot be higher than 90.".to_string())
    );
    assert_eq!(too_high.status_code(), 422);
    assert_eq!(
        insert(request(-1), false).unwrap_err(),
        CouponError::ValidationError("Discount cannot be less than 0.".to_string())
    );
}

#[test]
fn update_with_a_discount_out_of_range_is_invalid() {
    let request = |discount: i32| CouponUpdateRequest {
        discount,
        active: false,
        max_usage_count: None,
        expiration_date: None,
    };

    let written = update(request(90)).unwrap();
    assert_eq!(*written.discount.as_ref(), 90);
    assert!(!written.active);
    let refused = update(request(91)).unwrap_err();
    assert_eq!(
        refused,
        CouponError::ValidationError("Discount cannot be higher than 90.".to_string())
    );
    assert_eq!(refused.status_code(), 422);
    assert_eq!(
        update(request(-1)).unwrap_err(),
        CouponError::ValidationError("Discount cannot be less than 0.".to_string())
    );
}

#[test]
fn inserted_id_must_be_an_i32() {
    assert_eq!(inserted_id(0), Ok(0));
    assert_eq!(inserted_id(123456789), Ok(123456789));
    assert_eq!(inserted_id(2147483647), Ok(i32::MAX));
    let refused = inserted_id(2147483648).unwrap_err();
    assert_eq!(
        refused,
        CouponError::InternalError(
            "Failed to read inserted_id: out of range integral type conversion attempted"
                .to_string()
        )
    );
    assert_eq!(refused.status_code(), 500);
    assert_eq!(inserted_id(u64::MAX).unwrap_err().status_code(), 500);
}
