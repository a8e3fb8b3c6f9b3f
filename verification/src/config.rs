//! Process configuration as plain values: what was read from the
//! configuration files and the environment, and what is derived from it.

use crate::domain::subscriber_email::{
    email_is_valid, email_rejection, validator_accepts, SubscriberEmail,
};
use crate::secret::{secret_text, SecretText};
use std::time::Duration;
use vstd::prelude::*;
use vstd::string::StringExecFns;

verus! {

/// The lower-case form of a text, as `str::to_lowercase` gives it.
pub uninterp spec fn lowercase_of(text: Seq<char>) -> Seq<char>;

/// The duration of so many milliseconds, as `Duration::from_millis` gives
/// it.
pub uninterp spec fn duration_of_millis(millis: u64) -> Duration;

/// `str::to_lowercase`: the lower-case equivalent of the text, as a new
/// string. The contract only names it.
#[verifier::external_body]
fn to_lowercase(s: &str) -> (lower: String)
    ensures
        lower@ == lowercase_of(s@),
{
    s.to_lowercase()
}

/// `Duration::from_millis`: a duration of the given number of
/// milliseconds. The contract only names it.
#[verifier::external_body]
fn duration_from_millis(millis: u64) -> (duration: Duration)
    ensures
        duration == duration_of_millis(millis),
{
    Duration::from_millis(millis)
}

/// The runtime environment the process was started for.
#[derive(Clone, Copy, Debug, PartialEq, Eq, Structural)]
pub enum Environment {
    Local,
    Production,
}

/// What `Environment::try_from` answers for a name it does not know.
pub open spec fn unsupported_environment(lower: Seq<char>) -> Seq<char> {
    lower + " is not a supported environment. Use either `local` or `production`."@
}

/// The environment that a lower-case name stands for.
pub open spec fn environment_named(lower: Seq<char>) -> Result<Environment, Seq<char>> {
    if lower == "local"@ {
        Ok(Environment::Local)
    } else if lower == "production"@ {
        Ok(Environment::Production)
    } else {
        Err(unsupported_environment(lower))
    }
}

/// `r` is the result `expected`, with the message of an error as its text.
pub open spec fn is_environment(
    r: Result<Environment, String>,
    expected: Result<Environment, Seq<char>>,
) -> bool {
    match r {
        Ok(environment) => expected == Ok::<Environment, Seq<char>>(environment),
        Err(message) => expected == Err::<Environment, Seq<char>>(message@),
    }
}

impl Environment {
    /// The lower-case name of the environment.
    pub open spec fn name(self) -> Seq<char> {
        match self {
            Environment::Local => "local"@,
            Environment::Production => "production"@,
        }
    }

    pub fn as_str(&self) -> (s: &str)
        ensures
            s@ == self.name(),
    {
        match self {
            Environment::Local => "local",
            Environment::Production => "production",
        }
    }

    /// The environment with the lower-case name `lower`; any other text
    /// comes back inside the message.
    pub fn from_lowercase(lower: String) -> (res: Result<Environment, String>)
        ensures
            is_environment(res, environment_named(lower@)),
    {
        if lower == String::from_str("local") {
            Ok(Environment::Local)
        } else if lower == String::from_str("production") {
            Ok(Environment::Production)
        } else {
            Err(lower.concat(" is not a supported environment. Use either `local` or `production`."))
        }
    }

    /// The environment that `s` names, whatever the case of its letters.
    pub fn try_from(s: String) -> (res: Result<Environment, String>)
        ensures
            is_environment(res, environment_named(lowercase_of(s@))),
    {
        Environment::from_lowercase(to_lowercase(s.as_str()))
    }

    /// The environment to run in, given the value of the variable that
    /// selects it: `Local` where the variable is not set.
    pub fn from_variable(value: Option<String>) -> (res: Result<Environment, String>)
        ensures
            is_environment(
                res,
                match value {
                    Some(s) => environment_named(lowercase_of(s@)),
                    None => Ok(Environment::Local),
                },
            ),
    {
        match value {
            Some(s) => Environment::try_from(s),
            None => Ok(Environment::Local),
        }
    }

    /// The name of the configuration file of the environment.
    pub fn config_file_name(&self) -> (file_name: String)
        ensures
            file_name@ == self.name() + ".yaml"@,
    {
        String::from_str(self.as_str()).concat(".yaml")
    }
}

/// How far a connection to the database insists on encryption.
#[derive(Clone, Copy, Debug, PartialEq, Eq, Structural)]
pub enum SslMode {
    /// Encrypt, or fail.
    Require,
    /// Encrypt where the server can.
    Prefer,
}

/// The options of a connection to the database.
pub struct ConnectOptions {
    pub host: String,
    pub username: String,
    pub password: SecretText,
    pub port: u16,
    pub ssl_mode: SslMode,
    /// The database to connect to; `None` for the server's default.
    pub database: Option<String>,
    /// Whether statements are logged at trace level.
    pub trace_statements: bool,
}

pub struct DatabaseSettings {
    username: String,
    password: SecretText,
    port: u16,
    host: String,
    db_name: String,
    require_ssl: bool,
}

/// The settings of the database as plain values.
pub struct DatabaseRow {
    pub username: Seq<char>,
    pub password: Seq<char>,
    pub port: u16,
    pub host: Seq<char>,
    pub db_name: Seq<char>,
    pub require_ssl: bool,
}

impl View for DatabaseSettings {
    type V = DatabaseRow;

    closed spec fn view(&self) -> DatabaseRow {
        DatabaseRow {
            username: self.username@,
            password: secret_text(self.password),
            port: self.port,
            host: self.host@,
            db_name: self.db_name@,
            require_ssl: self.require_ssl,
        }
    }
}

/// The options for a connection to the server, without a database.
pub open spec fn server_options(db: DatabaseRow, options: ConnectOptions) -> bool {
    &&& options.host@ == db.host
    &&& options.username@ == db.username
    &&& secret_text(options.password) == db.password
    &&& options.port == db.port
    &&& options.ssl_mode == if db.require_ssl {
        SslMode::Require
    } else {
        SslMode::Prefer
    }
}

impl DatabaseSettings {
    pub fn new(
        username: String,
        password: SecretText,
        port: u16,
        host: String,
        db_name: String,
        require_ssl: bool,
    ) -> (settings: DatabaseSettings)
        ensures
            settings@ == (DatabaseRow {
                username: username@,
                password: secret_text(password),
                port,
                host: host@,
                db_name: db_name@,
                require_ssl,
            }),
    {
        DatabaseSettings { username, password, port, host, db_name, require_ssl }
    }

    /// The options for a connection to the server: encryption is required
    /// where the settings say so, and preferred where they do not.
    pub fn without_db(&self) -> (options: ConnectOptions)
        ensures
            server_options(self@, options),
            options.database is None,
            !options.trace_statements,
    {
        let ssl_mode = if self.require_ssl {
            SslMode::Require
        } else {
            SslMode::Prefer
        };
        ConnectOptions {
            host: self.host.clone(),
            username: self.username.clone(),
            password: self.password.clone(),
            port: self.port,
            ssl_mode,
            database: None,
            trace_statements: false,
        }
    }

    /// The options for a connection to the database of the settings, with
    /// statements logged at trace level.
    pub fn with_db(&self) -> (options: ConnectOptions)
        ensures
            server_options(self@, options),
            options.database matches Some(name) && name@ == self@.db_name,
            options.trace_statements,
    {
        let mut options = self.without_db();
        options.database = Some(self.db_name.clone());
        options.trace_statements = true;
        options
    }
}

pub struct AppSettings {
    port: u16,
    host: String,
    base_url: String,
}

/// The settings of the application as plain values.
pub struct AppRow {
    pub port: u16,
    pub host: Seq<char>,
    pub base_url: Seq<char>,
}

impl View for AppSettings {
    type V = AppRow;

    closed spec fn view(&self) -> AppRow {
        AppRow { port: self.port, host: self.host@, base_url: self.base_url@ }
    }
}

impl AppSettings {
    pub fn new(port: u16, host: String, base_url: String) -> (settings: AppSettings)
        ensures
            settings@ == (AppRow { port, host: host@, base_url: base_url@ }),
    {
        AppSettings { port, host, base_url }
    }
}

pub struct EmailClientSettings {
    base_url: String,
    sender_email: String,
    secret: SecretText,
    timeout_ms: u64,
}

/// The settings of the email client as plain values.
pub struct EmailClientRow {
    pub base_url: Seq<char>,
    pub sender_email: Seq<char>,
    pub secret: Seq<char>,
    pub timeout_ms: u64,
}

impl View for EmailClientSettings {
    type V = EmailClientRow;

    closed spec fn view(&self) -> EmailClientRow {
        EmailClientRow {
            base_url: self.base_url@,
            sender_email: self.sender_email@,
            secret: secret_text(self.secret),
            timeout_ms: self.timeout_ms,
        }
    }
}

impl EmailClientSettings {
    pub fn new(base_url: String, sender_email: String, secret: SecretText, timeout_ms: u64) -> (settings:
        EmailClientSettings)
        ensures
            settings@ == (EmailClientRow {
                base_url: base_url@,
                sender_email: sender_email@,
                secret: secret_text(secret),
                timeout_ms,
            }),
    {
        EmailClientSettings { base_url, sender_email, secret, timeout_ms }
    }

    /// The sender's address, if the configured text is an email address.
    pub fn sender(&self) -> (res: Result<SubscriberEmail, String>)
        ensures
            res is Ok <==> email_is_valid(
                self@.sender_email,
                validator_accepts(self@.sender_email),
            ),
            res matches Ok(address) ==> address@ == self@.sender_email,
            res matches Err(message) ==> message@ == email_rejection(self@.sender_email),
    {
        SubscriberEmail::parse(self.sender_email.clone())
    }

    pub fn get_base_url(&self) -> (s: &str)
        ensures
            s@ == self@.base_url,
    {
        self.base_url.as_str()
    }

    pub fn get_secret(&self) -> (secret: SecretText)
        ensures
            secret_text(secret) == self@.secret,
    {
        self.secret.clone()
    }

    pub fn get_timeout(&self) -> (timeout: Duration)
        ensures
            timeout == duration_of_millis(self@.timeout_ms),
    {
        duration_from_millis(self.timeout_ms)
    }
}

pub struct Settings {
    database: DatabaseSettings,
    app: AppSettings,
    email_client: EmailClientSettings,
}

/// All settings as plain values.
pub struct SettingsRow {
    pub database: DatabaseRow,
    pub app: AppRow,
    pub email_client: EmailClientRow,
}

impl View for Settings {
    type V = SettingsRow;

    closed spec fn view(&self) -> SettingsRow {
        SettingsRow { database: self.database@, app: self.app@, email_client: self.email_client@ }
    }
}

impl Settings {
    pub fn new(database: DatabaseSettings, app: AppSettings, email_client: EmailClientSettings) -> (settings:
        Settings)
        ensures
            settings@ == (SettingsRow {
                database: database@,
                app: app@,
                email_client: email_client@,
            }),
    {
        Settings { database, app, email_client }
    }

    pub fn get_app_port(&self) -> (port: u16)
        ensures
            port == self@.app.port,
    {
        self.app.port
    }

    pub fn get_app_host(&self) -> (s: &str)
        ensures
            s@ == self@.app.host,
    {
        self.app.host.as_str()
    }

    pub fn get_app_base_url(&self) -> (s: &str)
        ensures
            s@ == self@.app.base_url,
    {
        self.app.base_url.as_str()
    }

    pub fn get_db(&self) -> (database: &DatabaseSettings)
        ensures
            database@ == self@.database,
    {
        &self.database
    }

    pub fn set_db_name(&mut self, db_name: String)
        ensures
            final(self)@ == (SettingsRow {
                database: DatabaseRow { db_name: db_name@, ..old(self)@.database },
                ..old(self)@
            }),
    {
        self.database.db_name = db_name;
    }

    pub fn get_db_name(&self) -> (s: &str)
        ensures
            s@ == self@.database.db_name,
    {
        self.database.db_name.as_str()
    }

    pub fn set_app_port(&mut self, port: u16)
        ensures
            final(self)@ == (SettingsRow { app: AppRow { port, ..old(self)@.app }, ..old(self)@ }),
    {
        self.app.port = port;
    }

    /// Points the email client at another base URL.
    pub fn set_email_client(&mut self, base_url: String)
        ensures
            final(self)@ == (SettingsRow {
                email_client: EmailClientRow { base_url: base_url@, ..old(self)@.email_client },
                ..old(self)@
            }),
    {
        self.email_client.base_url = base_url;
    }

    pub fn get_email_client(&self) -> (email_client: &EmailClientSettings)
        ensures
            email_client@ == self@.email_client,
    {
        &self.email_client
    }
}

} // verus!
