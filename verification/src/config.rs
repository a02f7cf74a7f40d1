//! The running configuration and its validation.

use vstd::prelude::*;
use std::path::PathBuf;
use crate::ident::{fresh_secret, SECRET_SIZE};
use crate::text::{clone_opt, owned};

verus! {

/// A path of the standard library, carried through as it is.
#[verifier::external_type_specification]
#[verifier::external_body]
pub struct ExPathBuf(PathBuf);

/// `PathBuf::new` gives a path; which one is not stated here.
pub assume_specification[ PathBuf::new ]() -> (p: PathBuf);

/// A clone of a path is that path.
pub assume_specification[ <PathBuf as Clone>::clone ](p: &PathBuf) -> (r: PathBuf)
    ensures
        r == *p,
;

/// Why a configuration is refused.
#[derive(Debug, Clone, Copy, PartialEq, Eq, Structural)]
pub enum ConfigError {
    /// TLS is switched on and no trust store is named.
    MissingTrustStore,
    /// The trust store that is named is not there.
    TrustStoreNotFound,
    /// Authentication is switched on and the user name or the password is
    /// missing.
    MissingCredentials,
}

/// How the client proves who it is.
#[derive(Debug, PartialEq, Eq)]
pub struct Auth {
    pub enable: bool,
    pub username: Option<String>,
    pub password: Option<String>,
}

/// The TLS material of the connection.
#[derive(Debug, PartialEq, Eq)]
pub struct Ssl {
    pub enable: bool,
    pub trust_store: Option<String>,
    pub key_store: Option<PathBuf>,
    pub private_key: Option<PathBuf>,
    pub private_key_password: Option<String>,
    pub ca_path: Option<PathBuf>,
    pub protos: Option<Vec<String>>,
}

/// Where the broker is and how to reach it.
#[derive(Debug, PartialEq, Eq)]
pub struct MQTTConfig {
    pub broker: String,
    pub port: i32,
    pub client_id: String,
    pub keep_alive_interval: Option<u64>,
    pub auth: Auth,
    pub ssl: Ssl,
}

/// The web console's own settings.
#[derive(Debug, PartialEq, Eq)]
pub struct WebConsoleConfig {
    pub username: String,
    pub password: String,
    pub port: u16,
    pub api_token: Option<String>,
}

/// The whole configuration.
#[derive(Debug, PartialEq, Eq)]
pub struct TymeConfig {
    pub mqtt_config: MQTTConfig,
    pub web_console_config: WebConsoleConfig,
    pub database: String,
    /// Set while no configuration file has been found yet.
    pub first_start: bool,
    pub config_file: PathBuf,
}

/// Whether two optional lists of texts hold the same texts.
pub open spec fn same_texts(a: Option<Vec<String>>, b: Option<Vec<String>>) -> bool {
    match (a, b) {
        (Some(x), Some(y)) => x@ == y@,
        (None, None) => true,
        _ => false,
    }
}

/// Whether two sets of TLS material agree in every field.
pub open spec fn same_ssl(a: Ssl, b: Ssl) -> bool {
    &&& a.enable == b.enable
    &&& a.trust_store == b.trust_store
    &&& a.key_store == b.key_store
    &&& a.private_key == b.private_key
    &&& a.private_key_password == b.private_key_password
    &&& a.ca_path == b.ca_path
    &&& same_texts(a.protos, b.protos)
}

/// Whether two broker settings agree in every field.
pub open spec fn same_mqtt(a: MQTTConfig, b: MQTTConfig) -> bool {
    &&& a.broker == b.broker
    &&& a.port == b.port
    &&& a.client_id == b.client_id
    &&& a.keep_alive_interval == b.keep_alive_interval
    &&& a.auth == b.auth
    &&& same_ssl(a.ssl, b.ssl)
}

fn clone_path_opt(p: &Option<PathBuf>) -> (r: Option<PathBuf>)
    ensures
        r == *p,
{
    match p {
        Some(x) => Some(x.clone()),
        None => None,
    }
}

fn clone_strings(v: &Vec<String>) -> (r: Vec<String>)
    ensures
        r@ == v@,
{
    let mut r: Vec<String> = Vec::new();
    let mut i: usize = 0;
    while i < v.len()
        invariant
            i <= v.len(),
            r@ == v@.take(i as int),
        decreases v.len() - i,
    {
        r.push(v[i].clone());
        assert(v@.take(i + 1) =~= v@.take(i as int).push(v@[i as int]));
        i += 1;
    }
    assert(v@.take(v.len() as int) =~= v@);
    r
}

impl Clone for Auth {
    fn clone(&self) -> (r: Self)
        ensures
            r == *self,
    {
        Auth {
            enable: self.enable,
            username: clone_opt(&self.username),
            password: clone_opt(&self.password),
        }
    }
}

impl Clone for Ssl {
    fn clone(&self) -> (r: Self)
        ensures
            same_ssl(r, *self),
    {
        Ssl {
            enable: self.enable,
            trust_store: clone_opt(&self.trust_store),
            key_store: clone_path_opt(&self.key_store),
            private_key: clone_path_opt(&self.private_key),
            private_key_password: clone_opt(&self.private_key_password),
            ca_path: clone_path_opt(&self.ca_path),
            protos: match &self.protos {
                Some(p) => Some(clone_strings(p)),
                None => None,
            },
        }
    }
}

impl Clone for MQTTConfig {
    fn clone(&self) -> (r: Self)
        ensures
            same_mqtt(r, *self),
    {
        MQTTConfig {
            broker: self.broker.clone(),
            port: self.port,
            client_id: self.client_id.clone(),
            keep_alive_interval: self.keep_alive_interval,
            auth: self.auth.clone(),
            ssl: self.ssl.clone(),
        }
    }
}

impl Clone for WebConsoleConfig {
    fn clone(&self) -> (r: Self)
        ensures
            r == *self,
    {
        WebConsoleConfig {
            username: self.username.clone(),
            password: self.password.clone(),
            port: self.port,
            api_token: clone_opt(&self.api_token),
        }
    }
}

impl Clone for TymeConfig {
    fn clone(&self) -> (r: Self)
        ensures
            same_mqtt(r.mqtt_config, self.mqtt_config),
            r.web_console_config == self.web_console_config,
            r.database == self.database,
            r.first_start == self.first_start,
            r.config_file == self.config_file,
    {
        TymeConfig {
            mqtt_config: self.mqtt_config.clone(),
            web_console_config: self.web_console_config.clone(),
            database: self.database.clone(),
            first_start: self.first_start,
            config_file: self.config_file.clone(),
        }
    }
}

impl Default for Auth {
    fn default() -> (r: Self)
        ensures
            r == (Auth { enable: false, username: None, password: None }),
    {
        Auth { enable: false, username: None, password: None }
    }
}

impl Default for Ssl {
    fn default() -> (r: Self)
        ensures
            r == (Ssl {
                enable: false,
                trust_store: None,
                key_store: None,
                private_key: None,
                private_key_password: None,
                ca_path: None,
                protos: None,
            }),
    {
        Ssl {
            enable: false,
            trust_store: None,
            key_store: None,
            private_key: None,
            private_key_password: None,
            ca_path: None,
            protos: None,
        }
    }
}

impl Default for MQTTConfig {
    fn default() -> (r: Self)
        ensures
            r.broker@.len() == 0,
            r.port == 0,
            r.client_id@.len() == 0,
            r.keep_alive_interval is None,
            r.auth == (Auth { enable: false, username: None, password: None }),
            r.ssl == (Ssl {
                enable: false,
                trust_store: None,
                key_store: None,
                private_key: None,
                private_key_password: None,
                ca_path: None,
                protos: None,
            }),
    {
        MQTTConfig {
            broker: String::new(),
            port: 0,
            client_id: String::new(),
            keep_alive_interval: None,
            auth: Auth::default(),
            ssl: Ssl::default(),
        }
    }
}

impl Default for WebConsoleConfig {
    /// The console of a fresh installation: user `root` on port 12566, a
    /// password drawn at random and no API token.
    fn default() -> (r: Self)
        ensures
            r.username@ == "root"@,
            r.password@.len() == SECRET_SIZE,
            r.port == 12566,
            r.api_token is None,
    {
        WebConsoleConfig {
            username: owned("root"),
            password: fresh_secret(),
            port: 12566,
            api_token: None,
        }
    }
}

/// The configuration of a fresh installation: no broker named, TLS and
/// authentication off, no database, the console for `root` on port 12566
/// without an API token.
pub open spec fn is_fresh(c: TymeConfig) -> bool {
    &&& c.first_start
    &&& c.database@.len() == 0
    &&& c.mqtt_config.broker@.len() == 0
    &&& c.mqtt_config.port == 0
    &&& c.mqtt_config.client_id@.len() == 0
    &&& c.mqtt_config.keep_alive_interval is None
    &&& c.mqtt_config.auth == (Auth { enable: false, username: None, password: None })
    &&& c.mqtt_config.ssl == (Ssl {
        enable: false,
        trust_store: None,
        key_store: None,
        private_key: None,
        private_key_password: None,
        ca_path: None,
        protos: None,
    })
    &&& MQTTConfig::check_spec(c.mqtt_config) is Ok
    &&& c.web_console_config.username@ == "root"@
    &&& c.web_console_config.password@.len() == SECRET_SIZE
    &&& c.web_console_config.port == 12566
    &&& c.web_console_config.api_token is None
}

impl Default for TymeConfig {
    /// The configuration of a fresh installation, marked as a first start,
    /// with a console password drawn at random.
    fn default() -> (r: Self)
        ensures
            is_fresh(r),
    {
        TymeConfig {
            mqtt_config: MQTTConfig::default(),
            web_console_config: WebConsoleConfig::default(),
            database: String::new(),
            first_start: true,
            config_file: PathBuf::new(),
        }
    }
}

/// The name under which the client with the identifier `client_id` is
/// known to the broker.
pub open spec fn client_name(client_id: Seq<char>) -> Seq<char> {
    "tyme-server-"@ + client_id
}

impl MQTTConfig {
    /// What [`MQTTConfig::check`] answers.
    pub open spec fn check_spec(c: MQTTConfig) -> Result<(), ConfigError> {
        if c.ssl.enable && c.ssl.trust_store is None {
            Err(ConfigError::MissingTrustStore)
        } else if c.auth.enable && (c.auth.username is None || c.auth.password is None) {
            Err(ConfigError::MissingCredentials)
        } else {
            Ok(())
        }
    }

    /// Refuses a configuration that switches TLS on without a trust store,
    /// or authentication on without both user name and password.
    pub fn check(&self) -> (r: Result<(), ConfigError>)
        ensures
            r == Self::check_spec(*self),
    {
        if self.ssl.enable && self.ssl.trust_store.is_none() {
            return Err(ConfigError::MissingTrustStore);
        }
        if self.auth.enable && (self.auth.username.is_none() || self.auth.password.is_none()) {
            return Err(ConfigError::MissingCredentials);
        }
        Ok(())
    }
}

impl TymeConfig {
    /// The configuration to run with. `parsed` is what the configuration
    /// file held, or `None` where there is no such file: then the defaults
    /// of a first start apply. A file's configuration must pass
    /// [`MQTTConfig::check`]. Either way `config_file` is recorded as the
    /// file's place.
    pub fn obtain(parsed: Option<TymeConfig>, config_file: PathBuf) -> (r: Result<
        TymeConfig,
        ConfigError,
    >)
        ensures
            match parsed {
                None => r is Ok && is_fresh(r->Ok_0) && r->Ok_0.config_file == config_file,
                Some(p) => match MQTTConfig::check_spec(p.mqtt_config) {
                    Err(e) => r == Err::<TymeConfig, ConfigError>(e),
                    Ok(()) => r == Ok::<TymeConfig, ConfigError>(
                        TymeConfig { first_start: false, config_file, ..p },
                    ),
                },
            },
    {
        match parsed {
            None => {
                let mut config = TymeConfig::default();
                config.config_file = config_file;
                Ok(config)
            },
            Some(p) => {
                match p.mqtt_config.check() {
                    Err(e) => Err(e),
                    Ok(()) => {
                        let mut config = p;
                        config.first_start = false;
                        config.config_file = config_file;
                        Ok(config)
                    },
                }
            },
        }
    }

    /// The name under which this process is known to the broker.
    pub fn get_clint_name(&self) -> (name: String)
        ensures
            name@ == client_name(self.mqtt_config.client_id@),
    {
        owned("tyme-server-").concat(self.mqtt_config.client_id.as_str())
    }

    /// Takes the broker and console settings of `self` over into the
    /// running configuration `current`; the rest of `current` stays.
    pub fn update(&self, current: &mut TymeConfig)
        ensures
            same_mqtt(final(current).mqtt_config, self.mqtt_config),
            final(current).web_console_config == self.web_console_config,
            final(current).database == old(current).database,
            final(current).first_start == old(current).first_start,
            final(current).config_file == old(current).config_file,
    {
        current.mqtt_config = self.mqtt_config.clone();
        current.web_console_config = self.web_console_config.clone();
    }
}

} // verus!
