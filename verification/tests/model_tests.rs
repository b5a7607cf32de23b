use sys_core::config::{
    default_db_url, default_security_auth_key, default_server_host, default_server_port, Config,
    DbConfig, SecurityConfig, ServerConfig,
};
use sys_core::config::{classify_db_url, DbScheme};
use sys_core::errors::ServiceError;
use sys_core::filters::GetAutoPayListFilter;
use sys_core::pagination::Pagination;
use sys_core::service::{AppState, CommonService, CoreService};
use sys_core::user::{
    Preprocess, UserDetail, UserDetailToAddOrUpdate, UserId, UserMinInfo, UserSummary, UserType,
};

fn sample_detail() -> UserDetailToAddOrUpdate {
    UserDetailToAddOrUpdate {
        alias: "  bob  ".to_string(),
        username: " bob_the_builder ".to_string(),
        password: "  secret-password  ".to_string(),
        email: " bob@example.com ".to_string(),
    }
}

fn summary(user_type: UserType, id: u128) -> UserSummary {
    UserSummary {
        id: UserId { value: id },
        user_type,
        alias: "al".to_string(),
        username: "un".to_string(),
        exp: 123,
    }
}

#[test]
fn pagination_roundtrip() {
    let p = Pagination::new(2, 20);
    assert!(!p.is_unlimited());
    assert_eq!(p.get_safety(), (2, 20));
}

#[test]
fn pagination_unlimited() {
    let p = Pagination::unlimited();
    assert!(p.is_unlimited());
    assert_eq!(p.get_safety(), (1, 1));
}

#[test]
fn pagination_clamps_low_values() {
    let p = Pagination::new(0, -7);
    assert!(!p.is_unlimited());
    assert_eq!(p.get_safety(), (1, 1));
}

#[test]
fn config_defaults() {
    assert_eq!(default_server_host(), "0.0.0.0");
    assert_eq!(default_server_port(), 8888);
    assert_eq!(default_security_auth_key(), "unsafe-default-auth-key");
    assert_eq!(default_db_url(), "sqlite:./data.sqlite");

    let c = Config::default();
    assert_eq!(c.server.host, "0.0.0.0");
    assert_eq!(c.server.port, 8888);
    assert_eq!(c.security.auth_key, "unsafe-default-auth-key");
    assert_eq!(c.db.url, "sqlite:./data.sqlite");

    let s = ServerConfig::default();
    assert_eq!((s.host.as_str(), s.port), ("0.0.0.0", 8888));
    assert_eq!(SecurityConfig::default().auth_key, "unsafe-default-auth-key");
    assert_eq!(DbConfig::default().url, "sqlite:./data.sqlite");
}

#[test]
fn process_trims_all_fields() {
    let mut d = sample_detail();
    assert!(d.process().is_ok());
    assert_eq!(d.alias, "bob");
    assert_eq!(d.username, "bob_the_builder");
    assert_eq!(d.password, "secret-password");
    assert_eq!(d.email, "bob@example.com");
}

#[test]
fn process_rejects_short_alias() {
    let mut d = sample_detail();
    d.alias = " ab ".to_string();
    match d.process() {
        Err(ServiceError::Format { message }) => {
            assert_eq!(message, "Username length only 3 - 64!");
        }
        _ => panic!("a two-character alias must be rejected"),
    }
    // Later fields keep their submitted value on failure.
    assert_eq!(d.email, " bob@example.com ");
}

#[test]
fn process_rejects_long_username() {
    let mut d = sample_detail();
    d.username = "x".repeat(65);
    match d.process() {
        Err(ServiceError::Format { message }) => {
            assert_eq!(message, "Username length only 3 - 64!");
        }
        _ => panic!("a 65-character username must be rejected"),
    }
}

#[test]
fn process_rejects_short_password() {
    let mut d = sample_detail();
    d.password = "seven77".to_string();
    match d.process() {
        Err(ServiceError::Format { message }) => {
            assert_eq!(message, "Password length only 8 - 128!");
        }
        _ => panic!("a seven-character password must be rejected"),
    }
}

#[test]
fn user_type_queries() {
    let admin = summary(UserType::Admin, 7);
    assert!(admin.is_admin());
    assert!(!admin.is_not_admin());
    assert!(!admin.is_regular());

    let regular = summary(UserType::Regular, 8);
    assert!(!regular.is_admin());
    assert!(regular.is_not_admin());
    assert!(regular.is_regular());

    let min: UserMinInfo = regular.min_info();
    assert!(min.is_regular());
    assert!(!min.is_admin());
    assert!(min.is_not_admin());
    assert_eq!(min.user_id(), UserId { value: 8 });
}

#[test]
fn detail_min_info_copies_identity() {
    let d = UserDetail {
        id: UserId { value: 42 },
        user_type: UserType::Admin,
        alias: "a".to_string(),
        username: "u".to_string(),
        password: "p".to_string(),
        email: "e".to_string(),
        created_at: 0,
        updated_at: 0,
    };
    let min = d.min_info();
    assert_eq!(min.id, UserId { value: 42 });
    assert!(min.is_admin());
}

#[test]
fn guards_reject_anonymous() {
    let com = CommonService::new(Config::default());
    let svc: CoreService = com.core_service(None);
    assert!(matches!(
        svc.try_get_current_user(),
        Err(ServiceError::Auth { message: "Please login to continue!" })
    ));
    assert!(matches!(
        svc.only_admin(),
        Err(ServiceError::Auth { message: "Only admin can do!" })
    ));
    assert!(matches!(
        svc.only_admin_or_user(UserId { value: 1 }),
        Err(ServiceError::Auth { message: "Only admin or user can do!" })
    ));
}

#[test]
fn guards_admit_admin() {
    let com = CommonService::new(Config::default());
    let svc = com.core_service(Some(summary(UserType::Admin, 1)));
    assert!(svc.try_get_current_user().is_ok());
    assert!(svc.only_admin().is_ok());
    assert!(svc.only_admin_or_user(UserId { value: 99 }).is_ok());
}

#[test]
fn guards_admit_owner_but_not_other() {
    let com = CommonService::new(Config::default());
    let svc = com.core_service(Some(summary(UserType::Regular, 5)));
    assert!(svc.only_admin().is_err());
    assert!(svc.only_admin_or_user(UserId { value: 5 }).is_ok());
    assert!(svc.only_admin_or_user(UserId { value: 6 }).is_err());
}

#[test]
fn first_user_becomes_admin() {
    assert_eq!(CoreService::user_type_for_new_user(false), UserType::Admin);
    assert_eq!(CoreService::user_type_for_new_user(true), UserType::Regular);
}

#[test]
fn app_state_builds_core_service() {
    let state = AppState { com: CommonService::new(Config::default()) };
    let svc = state.core_service(Some(summary(UserType::Admin, 3)));
    assert!(svc.only_admin().is_ok());
    assert_eq!(state.com.config().server.port, 8888);
}

#[test]
fn filter_holds_creator() {
    let f = GetAutoPayListFilter::new(Some(9));
    assert_eq!(f.created_by(), Some(9));
    let d = GetAutoPayListFilter::default();
    assert_eq!(d.created_by(), None);
}

#[test]
fn db_url_scheme_dispatch() {
    assert_eq!(classify_db_url(&b"sqlite:./data.sqlite".to_vec()), DbScheme::Sqlite);
    assert_eq!(classify_db_url(&b"postgres://h/db".to_vec()), DbScheme::KnownUnsupported);
    assert_eq!(classify_db_url(&b"mysql:x".to_vec()), DbScheme::KnownUnsupported);
    assert_eq!(classify_db_url(&b"mssql:x".to_vec()), DbScheme::KnownUnsupported);
    assert_eq!(classify_db_url(&b"redis:x".to_vec()), DbScheme::Unknown);
    // No colon: the whole url is the scheme.
    assert_eq!(classify_db_url(&b"sqlite".to_vec()), DbScheme::Sqlite);
    assert_eq!(classify_db_url(&b"".to_vec()), DbScheme::Unknown);
}
