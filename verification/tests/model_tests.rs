use nats_actor::env::Environment;
use nats_actor::model::{
    ApiError, ApiStatusResponse, Identify, Invite, RegisterUser, TenantStatus, TenantTier,
    UserRole, UserStatus,
};
use nats_actor::page::{default_page, default_page_size, paginate, skip_offset, PageRequest};
use nats_actor::settings::{endpoint, Jaeger, RedisClientSettings};

#[test]
fn environment_names_round_trip() {
    let all = [
        Environment::Development,
        Environment::Testing,
        Environment::Staging,
        Environment::Production,
    ];
    for e in all {
        assert_eq!(Environment::from_name(e.as_str()), Ok(e));
    }
    assert_eq!(Environment::Development.as_str(), "development");
}

#[test]
fn environment_names_fold_ascii_case() {
    assert_eq!(Environment::from_name("STAGING"), Ok(Environment::Staging));
    assert_eq!(Environment::from_name("Production"), Ok(Environment::Production));
    assert_eq!(Environment::from_name("dEvElOpMeNt"), Ok(Environment::Development));
}

#[test]
fn unknown_environment_is_refused_with_its_name() {
    match Environment::from_name("Umbrella") {
        Err(msg) => assert_eq!(msg, "umbrella is not a supported environment.".to_string()),
        Ok(e) => panic!("unexpectedly parsed {:?}", e),
    }
}

#[test]
fn pagination_rounds_up_to_whole_pages() {
    let p = paginate(2, 3, 3, 10);
    assert_eq!(p.total_pages, 4);
    assert_eq!(p.page, 2);
    assert_eq!(p.page_size, 3);
    assert_eq!(p.number_of_elements, 3);
    assert_eq!(p.total_elements, 10);
    assert_eq!(paginate(1, 3, 0, 9).total_pages, 3);
    assert_eq!(paginate(1, 5, 0, 0).total_pages, 0);
    assert_eq!(paginate(1, 5, 1, 1).total_pages, 1);
}

#[test]
fn page_defaults_and_skip() {
    let req = PageRequest {
        page: default_page(),
        page_size: default_page_size(),
    };
    assert_eq!(req.page, 0);
    assert_eq!(req.page_size, 10);
    assert_eq!(skip_offset(1, 25), 0);
    assert_eq!(skip_offset(4, 25), 75);
}

#[test]
fn endpoints_and_urls_are_exact() {
    assert_eq!(endpoint("localhost", 8080), "localhost:8080".to_string());
    let r = RedisClientSettings {
        host: "cache".to_string(),
        port: 6379,
    };
    assert_eq!(r.url(), "redis://cache:6379".to_string());
    let j = Jaeger {
        host: "jaeger".to_string(),
        port: 6831,
    };
    assert_eq!(j.agent_endpoint(), "jaeger:6831".to_string());
}

#[test]
fn api_errors_map_to_status_codes() {
    assert_eq!(ApiError::ValidationError("bad".to_string()).status_code(), 400);
    assert_eq!(ApiError::NotFound("gone".to_string()).status_code(), 404);
    assert_eq!(ApiError::UnexpectedError("oops".to_string()).status_code(), 500);

    let r = ApiError::NotFound("no such user".to_string()).error_response();
    assert_eq!(r, ApiStatusResponse::new(404, "no such user"));

    let r = ApiError::UnexpectedError("secret detail".to_string()).error_response();
    assert_eq!(r.code, 500);
    assert_eq!(r.message, "Internal Server Error".to_string());
}

#[test]
fn canonical_names_match_the_stored_forms() {
    assert_eq!(UserStatus::Invited.name(), "Invited");
    assert_eq!(UserStatus::Active.name(), "Active");
    assert_eq!(UserStatus::Inactive.name(), "Inactive");
    assert_eq!(UserRole::Admin.name(), "Admin");
    assert_eq!(UserRole::User.name(), "User");
    assert_eq!(TenantStatus::Active.name(), "ACTIVE");
    assert_eq!(TenantTier::Premium.name(), "PREMIUM");
}

#[test]
fn required_fields_are_checked() {
    let complete = Invite {
        email: Some("a@example.com".to_string()),
        role: Some(UserRole::User),
    };
    assert!(complete.is_complete());
    let missing = Invite {
        email: None,
        role: Some(UserRole::User),
    };
    assert!(!missing.is_complete());
    assert!(Identify { email: Some("a@example.com".to_string()) }.is_complete());
    assert!(!RegisterUser { email: None }.is_complete());
}
