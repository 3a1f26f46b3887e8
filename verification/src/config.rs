//! The configuration that the client is constructed with. It is passed to the
//! components that read it; nothing here is global.

use vstd::prelude::*;
use vstd::string::StringExecFns;

verus! {

/// Application configuration.
#[derive(Clone, Debug, PartialEq, Eq)]
pub struct AppConfig {
    /// The client identifier under which the application talks to the catalog.
    pub client_id: String,
    pub client_port: u16,
    /// The address of a network proxy for the session, if one is to be used.
    pub proxy: Option<String>,
    /// The port of the access point, where the default is not wanted.
    pub ap_port: Option<u16>,
}

/// The view of [`AppConfig`]: the same, with texts and lists as sequences.
pub struct AppConfigView {
    pub client_id: Seq<char>,
    pub client_port: u16,
    pub proxy: Option<Seq<char>>,
    pub ap_port: Option<u16>,
}

impl View for AppConfig {
    type V = AppConfigView;

    open spec fn view(&self) -> AppConfigView {
        AppConfigView {
            client_id: self.client_id@,
            client_port: self.client_port,
            proxy: self.proxy.deep_view(),
            ap_port: self.ap_port,
        }
    }
}

/// The configuration of an application that was given none: the client
/// identifier of the official web application, port 8080, no proxy and the
/// default access point.
pub open spec fn default_app_config() -> AppConfigView {
    AppConfigView {
        client_id: "65b708073fc0480ea92a077233ca87bd"@,
        client_port: 8080,
        proxy: None,
        ap_port: None,
    }
}

impl Default for AppConfig {
    fn default() -> (config: AppConfig)
        ensures
            config@ == default_app_config(),
    {
        AppConfig {
            client_id: String::from_str("65b708073fc0480ea92a077233ca87bd"),
            client_port: 8080,
            proxy: None,
            ap_port: None,
        }
    }
}

/// What of the configuration the session is set up with.
#[derive(Clone, Debug, PartialEq, Eq)]
pub struct SessionSettings {
    pub proxy: Option<String>,
    pub ap_port: Option<u16>,
}

/// The view of [`SessionSettings`]: the same, with texts and lists as sequences.
pub struct SessionSettingsView {
    pub proxy: Option<Seq<char>>,
    pub ap_port: Option<u16>,
}

impl View for SessionSettings {
    type V = SessionSettingsView;

    open spec fn view(&self) -> SessionSettingsView {
        SessionSettingsView { proxy: self.proxy.deep_view(), ap_port: self.ap_port }
    }
}

/// Whether `reqwest::Url::parse` takes the text as a URL.
pub uninterp spec fn parses_as_url(text: Seq<char>) -> bool;

/// Asks `reqwest::Url::parse` whether it takes `text`.
///
/// Trusted: whether the parse succeeds depends on the text alone.
#[verifier::external_body]
fn url_parses(text: &str) -> (parsed: bool)
    ensures
        parsed == parses_as_url(text@),
{
    reqwest::Url::parse(text).is_ok()
}

/// The session settings of a configuration whose proxy address did or did
/// not parse: an address that is no URL is not used.
pub open spec fn session_settings_of(config: AppConfigView, proxy_is_url: bool) -> SessionSettingsView {
    SessionSettingsView {
        proxy: if proxy_is_url {
            config.proxy
        } else {
            None
        },
        ap_port: config.ap_port,
    }
}

impl AppConfig {
    /// The session settings of this configuration: a proxy address that
    /// `reqwest::Url::parse` does not take is left out.
    pub open spec fn session_config_spec(&self) -> SessionSettingsView {
        session_settings_of(self@, self@.proxy matches Some(address) && parses_as_url(address))
    }

    /// The configuration of an application that was given none.
    pub fn new() -> (config: AppConfig)
        ensures
            config@ == default_app_config(),
    {
        AppConfig::default()
    }

    /// The session settings of this configuration, given whether its proxy
    /// address is a URL.
    pub fn session_settings(&self, proxy_is_url: bool) -> (settings: SessionSettings)
        ensures
            settings@ == session_settings_of(self@, proxy_is_url),
    {
        let proxy = match &self.proxy {
            Some(address) => if proxy_is_url {
                Some(address.clone())
            } else {
                None
            },
            None => None,
        };
        SessionSettings { proxy, ap_port: self.ap_port }
    }

    /// The session settings of this configuration. A proxy address that does
    /// not parse as a URL is left out.
    pub fn session_config(&self) -> (settings: SessionSettings)
        ensures
            settings@ == self.session_config_spec(),
    {
        let proxy_is_url = match &self.proxy {
            Some(address) => url_parses(address.as_str()),
            None => false,
        };
        self.session_settings(proxy_is_url)
    }
}

/// The configuration of the application together with the login of its user.
#[derive(Debug, PartialEq, Eq)]
pub struct Configs {
    pub app_config: AppConfig,
    pub login_info: (String, String),
}

/// The view of [`Configs`]: the same, with texts and lists as sequences.
pub struct ConfigsView {
    pub app_config: AppConfigView,
    pub login_info: (Seq<char>, Seq<char>),
}

impl View for Configs {
    type V = ConfigsView;

    open spec fn view(&self) -> ConfigsView {
        ConfigsView {
            app_config: self.app_config@,
            login_info: (self.login_info.0@, self.login_info.1@),
        }
    }
}

impl Configs {
    /// The default application configuration with the given login.
    pub fn from_pass(username: String, password: String) -> (configs: Configs)
        ensures
            configs@ == (ConfigsView {
                app_config: default_app_config(),
                login_info: (username@, password@),
            }),
    {
        Configs { app_config: AppConfig::default(), login_info: (username, password) }
    }

    /// The given application configuration with the given login.
    pub fn new(app_config: AppConfig, username: String, password: String) -> (configs: Configs)
        ensures
            configs@ == (ConfigsView {
                app_config: app_config@,
                login_info: (username@, password@),
            }),
    {
        Configs { app_config, login_info: (username, password) }
    }
}

} // verus!
