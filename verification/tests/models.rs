use coupon_api::authentication::model::role::Role;
use coupon_api::cupom::cupom_repository::Fields;
use coupon_api::cupom::model::cupom::{Cupom, CupomError, CupomInsert, CupomRequest, CupomResponse};
use coupon_api::login::auth::{verify_service_request, UserClaims};
use coupon_api::login::login_service::authenticate;
use coupon_api::login::model::login::LoginError;
use coupon_api::routes::cupom::error_chain_fmt;

fn cupom() -> Cupom {
    Cupom {
        id: 7,
        code: "TestCupom".to_string(),
        discount: 10,
        max_usage_count: None,
        expiration_date: None,
        date_created: None,
        date_updated: None,
    }
}

#[test]
fn role_is_shown_by_its_name() {
    assert_eq!(Role::Admin.to_string(), "Admin");
    assert_eq!(Role::BaseUser.to_string(), "User");
}

#[test]
fn only_administrators_may_use_the_service() {
    let claims = |role| UserClaims { id: 1, role };
    assert!(verify_service_request(claims(coupon_api::login::model::role::Role::Admin)));
    assert!(!verify_service_request(claims(coupon_api::login::model::role::Role::BaseUser)));
}

#[test]
fn login_by_unknown_email_is_refused() {
    assert_eq!(authenticate("a@b.c", Some((1, "Admin".to_string()))), Ok(()));
    let refused = authenticate("a@b.c", None).unwrap_err();
    assert_eq!(
        refused,
        LoginError::AuthorizationError("User with email `a@b.c` not found".to_string())
    );
    assert_eq!(refused.status_code(), 401);
}

#[test]
fn login_errors_map_to_their_status() {
    let text = || "message".to_string();
    assert_eq!(LoginError::NotFoundError(text()).status_code(), 404);
    assert_eq!(LoginError::AuthorizationError(text()).status_code(), 401);
    assert_eq!(LoginError::UnexpectedError(text()).status_code(), 500);
}

#[test]
fn cupom_insert_keeps_code_and_discount() {
    assert_eq!(
        CupomInsert::from_cupom(cupom()),
        CupomInsert { code: "TestCupom".to_string(), discount: 10 }
    );
    let request = CupomRequest { code: "Other".to_string(), discount: 25 };
    assert_eq!(
        CupomInsert::from_request(&request),
        CupomInsert { code: "Other".to_string(), discount: 25 }
    );
}

#[test]
fn cupom_response_keeps_id_code_and_discount() {
    assert_eq!(
        CupomResponse::try_from(cupom()),
        Ok(CupomResponse { id: 7, code: "TestCupom".to_string(), discount: 10 })
    );
}

#[test]
fn cupom_errors_map_to_their_status() {
    let text = || "message".to_string();
    assert_eq!(CupomError::NotFoundError(text()).status_code(), 404);
    assert_eq!(CupomError::ValidationError(text()).status_code(), 400);
    assert_eq!(CupomError::UnexpectedError(text()).status_code(), 500);
    assert_eq!(coupon_api::routes::cupom::CupomError::GenericError(text()).status_code(), 400);
    assert_eq!(coupon_api::routes::cupom::CupomError::UnexpectedError(text()).status_code(), 500);
}

#[test]
fn cupom_fields_name_their_column() {
    assert_eq!(Fields::Id(1).column(), Some("id"));
    assert_eq!(Fields::Code("x".to_string()).column(), Some("code"));
    assert_eq!(Fields::Unspecified.column(), None);
}

#[test]
fn error_chain_lists_the_causes_in_order() {
    assert_eq!(error_chain_fmt("Something went wrong.", &Vec::new()), "Something went wrong.\n\n");
    assert_eq!(
        error_chain_fmt(
            "Something went wrong.",
            &vec!["Failed to perform query".to_string(), "connection refused".to_string()]
        ),
        "Something went wrong.\n\nCaused by:\n\tFailed to perform query\nCaused by:\n\tconnection refused\n"
    );
}
