use spotify_client::auth::{
    check_session, conclude_session, new_session, AuthConfig, ConnectFailure, SessionAction, SessionPlan,
    TokenSource,
};
use spotify_client::config::{AppConfig, Configs, SessionSettings};
use spotify_client::error::ClientError;

#[test]
fn default_app_config_is_that_of_the_web_application() {
    let expected = AppConfig {
        client_id: "65b708073fc0480ea92a077233ca87bd".to_string(),
        client_port: 8080,
        proxy: None,
        ap_port: None,
    };
    assert_eq!(AppConfig::default(), expected);
    assert_eq!(AppConfig::new(), expected);
}

#[test]
fn configs_hold_the_login() {
    let configs = Configs::from_pass("user".to_string(), "secret".to_string());
    assert_eq!(configs.app_config, AppConfig::default());
    assert_eq!(configs.login_info, ("user".to_string(), "secret".to_string()));
    let mut app_config = AppConfig::default();
    app_config.ap_port = Some(443);
    let configs = Configs::new(app_config.clone(), "u".to_string(), "p".to_string());
    assert_eq!(configs, Configs { app_config, login_info: ("u".to_string(), "p".to_string()) });
}

#[test]
fn session_config_keeps_a_proxy_that_is_a_url() {
    let mut config = AppConfig::default();
    config.proxy = Some("http://localhost:3128".to_string());
    config.ap_port = Some(4070);
    assert_eq!(
        config.session_config(),
        SessionSettings { proxy: Some("http://localhost:3128".to_string()), ap_port: Some(4070) }
    );
}

#[test]
fn session_config_leaves_out_a_proxy_that_is_no_url() {
    let mut config = AppConfig::default();
    config.proxy = Some("not a url".to_string());
    config.ap_port = Some(4070);
    assert_eq!(config.session_config(), SessionSettings { proxy: None, ap_port: Some(4070) });
    config.proxy = Some("".to_string());
    assert_eq!(config.session_config(), SessionSettings { proxy: None, ap_port: Some(4070) });
}

#[test]
fn session_config_without_a_proxy_has_none() {
    assert_eq!(AppConfig::default().session_config(), SessionSettings { proxy: None, ap_port: None });
}

#[test]
fn session_settings_follow_the_outcome_of_the_parse() {
    let mut config = AppConfig::default();
    config.proxy = Some("anything".to_string());
    assert_eq!(config.session_settings(true), SessionSettings { proxy: Some("anything".to_string()), ap_port: None });
    assert_eq!(config.session_settings(false), SessionSettings { proxy: None, ap_port: None });
    assert_eq!(AppConfig::default().session_settings(true), SessionSettings { proxy: None, ap_port: None });
}

#[test]
fn auth_config_takes_settings_and_login_from_the_configs() {
    let mut app_config = AppConfig::default();
    app_config.proxy = Some("socks5://127.0.0.1:9050".to_string());
    let configs = Configs::new(app_config, "user".to_string(), "secret".to_string());
    assert_eq!(
        AuthConfig::new(&configs),
        AuthConfig {
            session_config: SessionSettings { proxy: Some("socks5://127.0.0.1:9050".to_string()), ap_port: None },
            login_info: ("user".to_string(), "secret".to_string()),
        }
    );
    assert_eq!(
        AuthConfig::default(),
        AuthConfig { session_config: SessionSettings { proxy: None, ap_port: None }, login_info: (String::new(), String::new()) }
    );
}

#[test]
fn a_valid_session_is_kept() {
    assert_eq!(check_session(false), SessionAction::Keep);
    assert_eq!(check_session(true), SessionAction::Renew);
}

#[test]
fn a_new_session_prefers_cached_credentials() {
    assert_eq!(new_session(true, true), SessionPlan::UseCached);
    assert_eq!(new_session(true, false), SessionPlan::UseCached);
    assert_eq!(new_session(false, true), SessionPlan::Authenticate);
    assert_eq!(new_session(false, false), SessionPlan::Refuse);
}

#[test]
fn a_session_that_could_not_be_opened_fails_the_operation() {
    assert_eq!(conclude_session(SessionPlan::UseCached, None), Ok(()));
    assert_eq!(conclude_session(SessionPlan::Authenticate, None), Ok(()));
    assert_eq!(conclude_session(SessionPlan::Refuse, None), Err(ClientError::Auth));
    assert_eq!(conclude_session(SessionPlan::Refuse, Some(ConnectFailure::Io)), Err(ClientError::Auth));
    assert_eq!(conclude_session(SessionPlan::UseCached, Some(ConnectFailure::Authentication)), Err(ClientError::Auth));
    assert_eq!(conclude_session(SessionPlan::UseCached, Some(ConnectFailure::Io)), Err(ClientError::Transport));
    assert_eq!(conclude_session(SessionPlan::Authenticate, Some(ConnectFailure::Io)), Err(ClientError::Transport));
}

#[test]
fn a_token_is_held_until_the_session_is_renewed() {
    let mut source = TokenSource::new();
    assert_eq!(source.current_token(), Err(ClientError::Auth));
    source.store("first".to_string());
    assert_eq!(source.current_token(), Ok("first"));
    assert_eq!(source.ensure_valid(false), SessionAction::Keep);
    assert_eq!(source.ensure_valid(false), SessionAction::Keep);
    assert_eq!(source.current_token(), Ok("first"));
    assert_eq!(source.ensure_valid(true), SessionAction::Renew);
    assert_eq!(source.current_token(), Err(ClientError::Auth));
    source.store("second".to_string());
    assert_eq!(source.ensure_valid(false), SessionAction::Keep);
    assert_eq!(source.current_token(), Ok("second"));
    source.store("third".to_string());
    assert_eq!(source.current_token(), Ok("third"));
}
