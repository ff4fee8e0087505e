use confhub::config::{superuser_setup, Config, MissingVar, SuperuserSetup, SUPERUSER_NAME};
use confhub::http::DbError;

#[test]
fn config_from_all_vars() {
    let c = Config::from_vars(Some("s".into()), Some("postgres://x".into()), Some("pw".into())).unwrap();
    assert_eq!((c.jwt_secret.as_str(), c.db_url.as_str(), c.superuser_pwd.as_str()), ("s", "postgres://x", "pw"));
}

#[test]
fn first_missing_var_is_reported() {
    assert_eq!(Config::from_vars(None, None, None).unwrap_err(), MissingVar::JwtSecret);
    assert_eq!(Config::from_vars(Some("s".into()), None, None).unwrap_err(), MissingVar::DatabaseUrl);
    assert_eq!(Config::from_vars(Some("s".into()), Some("d".into()), None).unwrap_err(), MissingVar::SuperuserPwd);
    assert_eq!(MissingVar::JwtSecret.var_name(), "JWT_SECRET");
    assert_eq!(MissingVar::DatabaseUrl.var_name(), "DATABASE_URL");
    assert_eq!(MissingVar::SuperuserPwd.var_name(), "SUPERUSER_PWD");
}

#[test]
fn superuser_setup_decisions() {
    assert_eq!(SUPERUSER_NAME, "superuser");
    assert_eq!(superuser_setup(&Ok::<(), DbError>(())), SuperuserSetup::Present);
    assert_eq!(superuser_setup(&Err::<(), DbError>(DbError::RowNotFound)), SuperuserSetup::Create);
    assert_eq!(superuser_setup(&Err::<(), DbError>(DbError::Other)), SuperuserSetup::Abort);
}
