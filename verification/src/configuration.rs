//! Settings of the service, as plain values.

use crate::authentication::text::same_text;
use vstd::prelude::*;
use vstd::string::*;

verus! {

/// The runtime environment of the service.
#[derive(Clone, Copy, Debug, PartialEq, Eq, Structural)]
pub enum Environment {
    Local,
    Production,
}

/// The static API key that callers present to obtain a session. It cannot be
/// printed for debugging, and so does not end up in a log.
#[derive(Clone, PartialEq, Eq)]
pub struct ApiKey(pub String);

/// Where the service listens and what it is called, with its API key.
#[derive(Clone, PartialEq, Eq)]
pub struct ApplicationSettings {
    pub port: u16,
    pub host: String,
    pub base_url: String,
    pub api_key: ApiKey,
}

/// How to reach the relational database.
#[derive(Clone, PartialEq, Eq)]
pub struct DatabaseSettings {
    pub username: String,
    pub password: String,
    pub port: u16,
    pub host: String,
    pub database_name: String,
    pub test_database_name: String,
    pub require_ssl: bool,
}

/// All settings of the service.
#[derive(Clone, PartialEq, Eq)]
pub struct Settings {
    pub database: DatabaseSettings,
    pub application: ApplicationSettings,
    pub redis_uri: String,
}

/// Why the settings cannot be used to start the service.
#[derive(Clone, Copy, Debug, PartialEq, Eq, Structural)]
pub enum ConfigError {
    /// No API key was configured.
    MissingSecret,
    /// No address of the session store was configured.
    MissingStoreEndpoint,
}

/// What issuance and validation need to run: the expected API key and the address of the
/// session store.
#[derive(Clone, PartialEq, Eq)]
pub struct GateSettings {
    pub api_key: ApiKey,
    pub store_endpoint: String,
}

/// The lower-case form of a text, as `str::to_lowercase` gives it.
pub uninterp spec fn lowercase_of(text: Seq<char>) -> Seq<char>;

/// `str::to_lowercase`: the text with each character replaced by its lower-case
/// form under Unicode's rules.
#[verifier::external_body]
fn to_lowercase(text: &str) -> (lower: String)
    ensures
        lower@ == lowercase_of(text@),
{
    text.to_lowercase()
}

/// What follows the rejected name in the message for an unknown environment.
pub open spec fn unsupported_suffix() -> Seq<char> {
    " is not a supported environment. Use either 'local' or 'production'."@
}

/// The environment that a lower-case name stands for, or the message that
/// rejects the name.
pub open spec fn environment_named(name: Seq<char>) -> Result<Environment, Seq<char>> {
    if name == "local"@ {
        Ok(Environment::Local)
    } else if name == "production"@ {
        Ok(Environment::Production)
    } else {
        Err(name + unsupported_suffix())
    }
}

/// The view of a parsed environment: the message as a character sequence.
pub open spec fn environment_view(r: Result<Environment, String>) -> Result<
    Environment,
    Seq<char>,
> {
    match r {
        Ok(environment) => Ok(environment),
        Err(message) => Err(message@),
    }
}

impl Environment {
    /// The name of the environment, which is also the stem of its settings file.
    pub fn as_str(&self) -> (name: &'static str)
        ensures
            name@ == match *self {
                Environment::Local => "local"@,
                Environment::Production => "production"@,
            },
            environment_named(name@) == Ok::<_, Seq<char>>(*self),
    {
        proof {
            reveal_strlit("local");
            reveal_strlit("production");
            assert("local"@.len() == 5);
            assert("production"@.len() == 10);
        }
        match self {
            Environment::Local => "local",
            Environment::Production => "production",
        }
    }

    /// The environment with the given lower-case name.
    pub fn from_name(name: &str) -> (r: Result<Environment, String>)
        ensures
            environment_view(r) == environment_named(name@),
    {
        if same_text(name, "local") {
            Ok(Environment::Local)
        } else if same_text(name, "production") {
            Ok(Environment::Production)
        } else {
            Err(
                String::from_str(name).concat(
                    " is not a supported environment. Use either 'local' or 'production'.",
                ),
            )
        }
    }

    /// The environment that a name stands for, whatever its case.
    pub fn try_from(s: String) -> (r: Result<Environment, String>)
        ensures
            environment_view(r) == environment_named(lowercase_of(s@)),
    {
        let lower = to_lowercase(s.as_str());
        Environment::from_name(lower.as_str())
    }
}

impl DatabaseSettings {
    /// The database to connect to: the test database or the regular one.
    pub fn selected_database(&self, test_database: bool) -> (name: &String)
        ensures
            *name == if test_database {
                self.test_database_name
            } else {
                self.database_name
            },
    {
        if test_database {
            &self.test_database_name
        } else {
            &self.database_name
        }
    }
}

impl GateSettings {
    /// Checks at startup that both settings are there. The API key is looked
    /// at first.
    pub fn new(api_key: Option<String>, store_endpoint: Option<String>) -> (r: Result<
        GateSettings,
        ConfigError,
    >)
        ensures
            api_key is None ==> r is Err && r->Err_0 == ConfigError::MissingSecret,
            api_key is Some && store_endpoint is None ==> r is Err && r->Err_0
                == ConfigError::MissingStoreEndpoint,
            api_key is Some && store_endpoint is Some ==> r is Ok && r->Ok_0.api_key.0
                == api_key->Some_0 && r->Ok_0.store_endpoint == store_endpoint->Some_0,
    {
        match api_key {
            None => Err(ConfigError::MissingSecret),
            Some(key) => match store_endpoint {
                None => Err(ConfigError::MissingStoreEndpoint),
                Some(endpoint) => Ok(GateSettings { api_key: ApiKey(key), store_endpoint: endpoint }),
            },
        }
    }
}

} // verus!
