use vstd::prelude::*;

verus! {

/// The SMTP port used when the configuration names none.
pub const DEFAULT_SMTP_PORT: u16 = 587;

/// A secret value, such as a password or a private key.
#[derive(Debug, PartialEq, Eq)]
pub struct Secret(pub String);

impl Clone for Secret {
    fn clone(&self) -> (res: Self)
        ensures
            res == *self,
    {
        Secret(self.0.clone())
    }
}

/// SMTP settings as the configuration file gives them.
#[derive(Debug)]
pub struct JsonSmtp {
    pub hostname: String,
    pub port: Option<u16>,
    pub starttls: Option<bool>,
    pub username: String,
    pub secret: Secret,
    pub from_name: String,
    pub from_email: String,
}

/// The settings with which the server sends email.
#[derive(Debug)]
pub struct Email {
    pub hostname: String,
    pub port: u16,
    pub starttls: bool,
    pub username: String,
    pub secret: Secret,
    pub from_name: Option<String>,
    pub from_email: String,
}

/// How the server delivers messages to its users.
#[derive(Debug)]
pub enum Messenger {
    /// Messages are printed on standard output.
    StdOut,
    /// Messages are sent as email.
    Email(Email),
}

/// The email settings that SMTP settings `smtp` give: the default port and
/// STARTTLS where they are not set, and the sender name always present.
pub open spec fn spec_email(smtp: JsonSmtp) -> Email {
    Email {
        hostname: smtp.hostname,
        port: match smtp.port {
            Some(port) => port,
            None => DEFAULT_SMTP_PORT,
        },
        starttls: match smtp.starttls {
            Some(starttls) => starttls,
            None => true,
        },
        username: smtp.username,
        secret: smtp.secret,
        from_name: Some(smtp.from_name),
        from_email: smtp.from_email,
    }
}

/// The messenger for the configured SMTP settings: email when they are
/// given, else standard output.
pub fn into_messenger(smtp: Option<JsonSmtp>) -> (messenger: Messenger)
    ensures
        match smtp {
            None => messenger is StdOut,
            Some(smtp) => messenger == Messenger::Email(spec_email(smtp)),
        },
{
    match smtp {
        None => Messenger::StdOut,
        Some(smtp) => {
            let JsonSmtp { hostname, port, starttls, username, secret, from_name, from_email } = smtp;
            let port = match port {
                Some(port) => port,
                None => DEFAULT_SMTP_PORT,
            };
            let starttls = match starttls {
                Some(starttls) => starttls,
                None => true,
            };
            Messenger::Email(
                Email {
                    hostname,
                    port,
                    starttls,
                    username,
                    secret,
                    from_name: Some(from_name),
                    from_email,
                },
            )
        },
    }
}

/// How the database location variable stands against the database path.
#[derive(Debug, PartialEq, Eq)]
pub enum DatabaseUrl {
    /// The variable already names the database path.
    Matches,
    /// The variable names another location, given here.
    Differs(String),
    /// The variable is not set.
    Unset,
}

impl DatabaseUrl {
    /// Whether the variable must be set to the database path.
    pub open spec fn spec_needs_update(&self) -> bool {
        !(self is Matches)
    }

    /// Whether the variable must be set to the database path.
    pub fn needs_update(&self) -> (update: bool)
        ensures
            update == self.spec_needs_update(),
    {
        match self {
            DatabaseUrl::Matches => false,
            _ => true,
        }
    }
}

/// `state` is how a database location variable with value `current` (`None`
/// when unset) stands against the database path `database_path`.
pub open spec fn database_url_state(current: Option<Seq<char>>, database_path: Seq<char>, state: DatabaseUrl) -> bool {
    match current {
        None => state is Unset,
        Some(url) => if url == database_path {
            state is Matches
        } else {
            state matches DatabaseUrl::Differs(other) && other@ == url
        },
    }
}

/// How the current value `current` of the database location variable stands
/// against the database path `database_path`.
pub fn diesel_database_url(current: Option<String>, database_path: &str) -> (state: DatabaseUrl)
    ensures
        database_url_state(
            match current {
                Some(url) => Some(url@),
                None => None,
            },
            database_path@,
            state,
        ),
{
    match current {
        None => DatabaseUrl::Unset,
        Some(url) => {
            if url == database_path.to_owned() {
                DatabaseUrl::Matches
            } else {
                DatabaseUrl::Differs(url)
            }
        },
    }
}

/// The variable must be set exactly when it does not already hold the
/// database path; once set to it, it needs no further update.
pub proof fn lemma_database_url_update(current: Option<Seq<char>>, database_path: Seq<char>, state: DatabaseUrl)
    requires
        database_url_state(current, database_path, state),
    ensures
        state.spec_needs_update() <==> current != Some(database_path),
{
}

/// The settings of the hosted service's license.
#[derive(Debug)]
pub struct JsonBencher {
    pub private_pem: Secret,
}

/// Where the server's licensor comes from.
#[derive(Debug)]
pub enum LicensorSource {
    /// The hosted service, licensed by the given private key.
    BencherCloud { private_pem: Secret },
    /// A self-hosted server.
    SelfHosted,
}

/// A configuration that the server refuses.
#[derive(Debug, PartialEq, Eq)]
pub enum ConfigError {
    /// The hosted-service section is only allowed at the hosted endpoint, given here.
    BencherDev(String),
}

/// Where the licensor comes from: with the hosted-service section, the
/// hosted licensor when the endpoint is the hosted service (`is_bencher_dev`)
/// and an error naming the endpoint otherwise; without it, self-hosted.
/// This decides only where the licensor comes from: building the licensor
/// from that source (which can still fail, for a bad private key) is not
/// part of this library.
pub fn bencher_licensor(endpoint: &str, is_bencher_dev: bool, bencher: Option<JsonBencher>) -> (res: Result<LicensorSource, ConfigError>)
    ensures
        match bencher {
            None => res matches Ok(LicensorSource::SelfHosted),
            Some(bencher) => if is_bencher_dev {
                res == Ok::<LicensorSource, ConfigError>(LicensorSource::BencherCloud { private_pem: bencher.private_pem })
            } else {
                res matches Err(ConfigError::BencherDev(e)) && e@ == endpoint@
            },
        },
{
    match bencher {
        Some(bencher) => {
            if is_bencher_dev {
                Ok(LicensorSource::BencherCloud { private_pem: bencher.private_pem })
            } else {
                Err(ConfigError::BencherDev(endpoint.to_owned()))
            }
        },
        None => Ok(LicensorSource::SelfHosted),
    }
}

/// TLS settings as the configuration file gives them.
#[derive(Debug)]
pub enum JsonTls {
    AsFile { cert_file: String, key_file: String },
    AsBytes { certs: Vec<u8>, key: Vec<u8> },
}

/// Server settings as the configuration file gives them.
#[derive(Debug)]
pub struct JsonServer {
    pub bind_address: String,
    pub request_body_max_bytes: usize,
    pub tls: Option<JsonTls>,
}

/// TLS settings of the HTTP server.
#[derive(Debug)]
pub enum TlsConfig {
    /// Certificate chain and private key in PEM files at these paths.
    AsFile { cert_file: String, key_file: String },
    /// Certificate chain and private key as PEM bytes.
    AsBytes { certs: Vec<u8>, key: Vec<u8> },
}

/// Settings of the HTTP server.
#[derive(Debug)]
pub struct ServerConfig {
    pub bind_address: String,
    pub request_body_max_bytes: usize,
    pub tls: Option<TlsConfig>,
}

/// The server TLS settings that configured TLS settings `tls` give.
pub open spec fn spec_tls_config(tls: JsonTls) -> TlsConfig {
    match tls {
        JsonTls::AsFile { cert_file, key_file } => TlsConfig::AsFile { cert_file, key_file },
        JsonTls::AsBytes { certs, key } => TlsConfig::AsBytes { certs, key },
    }
}

/// The server settings that configured server settings `server` give.
pub open spec fn spec_server_config(server: JsonServer) -> ServerConfig {
    ServerConfig {
        bind_address: server.bind_address,
        request_body_max_bytes: server.request_body_max_bytes,
        tls: match server.tls {
            Some(tls) => Some(spec_tls_config(tls)),
            None => None,
        },
    }
}

/// The HTTP server settings for the configured server settings.
pub fn into_config_dropshot(server: JsonServer) -> (config: ServerConfig)
    ensures
        config == spec_server_config(server),
{
    let JsonServer { bind_address, request_body_max_bytes, tls } = server;
    let tls = match tls {
        Some(JsonTls::AsFile { cert_file, key_file }) => Some(TlsConfig::AsFile { cert_file, key_file }),
        Some(JsonTls::AsBytes { certs, key }) => Some(TlsConfig::AsBytes { certs, key }),
        None => None,
    };
    ServerConfig { bind_address, request_body_max_bytes, tls }
}

/// Log level as the configuration file gives it.
#[derive(Debug, Clone, Copy, PartialEq, Eq, Structural)]
pub enum LogLevel {
    Trace,
    Debug,
    Info,
    Warn,
    Error,
    Critical,
}

/// What to do with an existing log file, as the configuration file gives it.
#[derive(Debug, Clone, Copy, PartialEq, Eq, Structural)]
pub enum IfExists {
    Fail,
    Truncate,
    Append,
}

/// Where the server logs, as the configuration file gives it.
#[derive(Debug)]
pub enum ServerLog {
    StderrTerminal { level: LogLevel },
    File { level: LogLevel, path: String, if_exists: IfExists },
}

/// Logging settings as the configuration file gives them.
#[derive(Debug)]
pub struct JsonLogging {
    pub name: String,
    pub log: ServerLog,
}

/// Level of the server's logger.
#[derive(Debug, Clone, Copy, PartialEq, Eq, Structural)]
pub enum LoggingLevel {
    Trace,
    Debug,
    Info,
    Warn,
    Error,
    Critical,
}

/// What the server's logger does with an existing log file.
#[derive(Debug, Clone, Copy, PartialEq, Eq, Structural)]
pub enum LoggingIfExists {
    Fail,
    Truncate,
    Append,
}

/// Where the server's logger writes.
#[derive(Debug)]
pub enum LoggingTarget {
    /// Pretty-printed to the terminal's standard error.
    StderrTerminal { level: LoggingLevel },
    /// Bunyan records in the file at `path`.
    File { level: LoggingLevel, path: String, if_exists: LoggingIfExists },
}

/// Settings of the server's logger: its name and where it writes.
#[derive(Debug)]
pub struct LoggingConfig {
    pub name: String,
    pub log: LoggingTarget,
}

/// The logger level of configured level `level`: the level of the same name.
pub open spec fn spec_level(level: LogLevel) -> LoggingLevel {
    match level {
        LogLevel::Trace => LoggingLevel::Trace,
        LogLevel::Debug => LoggingLevel::Debug,
        LogLevel::Info => LoggingLevel::Info,
        LogLevel::Warn => LoggingLevel::Warn,
        LogLevel::Error => LoggingLevel::Error,
        LogLevel::Critical => LoggingLevel::Critical,
    }
}

/// The logger's choice for configured choice `if_exists`: the one of the same name.
pub open spec fn spec_if_exists(if_exists: IfExists) -> LoggingIfExists {
    match if_exists {
        IfExists::Fail => LoggingIfExists::Fail,
        IfExists::Truncate => LoggingIfExists::Truncate,
        IfExists::Append => LoggingIfExists::Append,
    }
}

/// The logger settings that configured logging settings `logging` give.
pub open spec fn spec_logging_config(logging: JsonLogging) -> LoggingConfig {
    LoggingConfig {
        name: logging.name,
        log: match logging.log {
            ServerLog::StderrTerminal { level } => LoggingTarget::StderrTerminal { level: spec_level(level) },
            ServerLog::File { level, path, if_exists } => LoggingTarget::File {
                level: spec_level(level),
                path,
                if_exists: spec_if_exists(if_exists),
            },
        },
    }
}

/// The logger level for a configured log level.
pub fn into_level(log_level: &LogLevel) -> (level: LoggingLevel)
    ensures
        level == spec_level(*log_level),
{
    match log_level {
        LogLevel::Trace => LoggingLevel::Trace,
        LogLevel::Debug => LoggingLevel::Debug,
        LogLevel::Info => LoggingLevel::Info,
        LogLevel::Warn => LoggingLevel::Warn,
        LogLevel::Error => LoggingLevel::Error,
        LogLevel::Critical => LoggingLevel::Critical,
    }
}

/// The logger's choice for a configured choice on existing log files.
pub fn into_if_exists(if_exists: &IfExists) -> (choice: LoggingIfExists)
    ensures
        choice == spec_if_exists(*if_exists),
{
    match if_exists {
        IfExists::Fail => LoggingIfExists::Fail,
        IfExists::Truncate => LoggingIfExists::Truncate,
        IfExists::Append => LoggingIfExists::Append,
    }
}

/// The logger settings for the configured logging settings.
pub fn into_log(logging: JsonLogging) -> (config: LoggingConfig)
    ensures
        config == spec_logging_config(logging),
{
    let JsonLogging { name, log } = logging;
    let log = match log {
        ServerLog::StderrTerminal { level } => LoggingTarget::StderrTerminal { level: into_level(&level) },
        ServerLog::File { level, path, if_exists } => LoggingTarget::File {
            level: into_level(&level),
            path,
            if_exists: into_if_exists(&if_exists),
        },
    };
    LoggingConfig { name, log }
}

/// Distinct configured levels give distinct logger levels.
pub proof fn lemma_level_injective(a: LogLevel, b: LogLevel)
    ensures
        spec_level(a) == spec_level(b) ==> a == b,
{
}

/// Distinct configured choices give distinct logger choices.
pub proof fn lemma_if_exists_injective(a: IfExists, b: IfExists)
    ensures
        spec_if_exists(a) == spec_if_exists(b) ==> a == b,
{
}


/// Whether the SMTP settings `smtp` and the email settings `email` agree:
/// the same host, account, secret and sender address, the sender name
/// present, the configured port or else the default port, and the
/// configured STARTTLS choice or else STARTTLS on, whatever the port.
pub open spec fn email_follows_smtp(smtp: JsonSmtp, email: Email) -> bool {
    &&& email.hostname == smtp.hostname
    &&& email.username == smtp.username
    &&& email.secret == smtp.secret
    &&& email.from_name == Some(smtp.from_name)
    &&& email.from_email == smtp.from_email
    &&& match smtp.port {
        Some(port) => email.port == port,
        None => email.port == DEFAULT_SMTP_PORT,
    }
    &&& match smtp.starttls {
        Some(starttls) => email.starttls == starttls,
        None => email.starttls,
    }
}

/// The messenger prints to standard output exactly when no SMTP settings are
/// given; otherwise it sends email with settings that follow the SMTP ones,
/// STARTTLS on whenever it is not set.
pub proof fn lemma_messenger_follows_smtp(smtp: Option<JsonSmtp>, messenger: Messenger)
    requires
        match smtp {
            None => messenger is StdOut,
            Some(smtp) => messenger == Messenger::Email(spec_email(smtp)),
        },
    ensures
        smtp is None <==> messenger is StdOut,
        match smtp {
            None => true,
            Some(smtp) => match messenger {
                Messenger::StdOut => false,
                Messenger::Email(email) => email_follows_smtp(smtp, email),
            },
        },
        smtp matches Some(settings) ==> (settings.starttls is None ==> (messenger matches Messenger::Email(email) && email.starttls)),
{
}

/// Whether a configured level and a logger level have the same name.
pub open spec fn same_level(level: LogLevel, logging: LoggingLevel) -> bool {
    ||| level is Trace && logging is Trace
    ||| level is Debug && logging is Debug
    ||| level is Info && logging is Info
    ||| level is Warn && logging is Warn
    ||| level is Error && logging is Error
    ||| level is Critical && logging is Critical
}

/// Whether a configured choice on existing files and the logger's choice
/// have the same name.
pub open spec fn same_if_exists(if_exists: IfExists, logging: LoggingIfExists) -> bool {
    ||| if_exists is Fail && logging is Fail
    ||| if_exists is Truncate && logging is Truncate
    ||| if_exists is Append && logging is Append
}

/// A configured level becomes the logger level of the same name.
pub proof fn lemma_level_by_name(level: LogLevel, logging: LoggingLevel)
    requires
        logging == spec_level(level),
    ensures
        same_level(level, logging),
{
}

/// A configured choice on existing files becomes the logger's choice of the
/// same name.
pub proof fn lemma_if_exists_by_name(if_exists: IfExists, logging: LoggingIfExists)
    requires
        logging == spec_if_exists(if_exists),
    ensures
        same_if_exists(if_exists, logging),
{
}

/// The logger settings keep the configured name and target: a terminal
/// logger at the level of the configured name, or a file logger at the
/// configured path with the level and the choice on existing files of the
/// configured names.
pub proof fn lemma_log_follows_config(logging: JsonLogging, config: LoggingConfig)
    requires
        config == spec_logging_config(logging),
    ensures
        config.name == logging.name,
        match logging.log {
            ServerLog::StderrTerminal { level } => match config.log {
                LoggingTarget::StderrTerminal { level: logger_level } => same_level(level, logger_level),
                LoggingTarget::File { .. } => false,
            },
            ServerLog::File { level, path, if_exists } => match config.log {
                LoggingTarget::StderrTerminal { .. } => false,
                LoggingTarget::File { level: logger_level, path: logger_path, if_exists: logger_if_exists } => {
                    &&& same_level(level, logger_level)
                    &&& logger_path == path
                    &&& same_if_exists(if_exists, logger_if_exists)
                },
            },
        },
{
}

/// The HTTP server settings keep the configured bind address, body limit and
/// TLS material, each TLS form as the same form.
pub proof fn lemma_server_config_follows(server: JsonServer, config: ServerConfig)
    requires
        config == spec_server_config(server),
    ensures
        config.bind_address == server.bind_address,
        config.request_body_max_bytes == server.request_body_max_bytes,
        server.tls is None <==> config.tls is None,
        match server.tls {
            None => true,
            Some(JsonTls::AsFile { cert_file, key_file }) => config.tls == Some(TlsConfig::AsFile { cert_file, key_file }),
            Some(JsonTls::AsBytes { certs, key }) => config.tls == Some(TlsConfig::AsBytes { certs, key }),
        },
{
}

/// The database location check: unset when there is no value, a match
/// exactly when the value is the database path, else a mismatch naming the
/// value; only a match needs no update.
pub proof fn lemma_database_url_by_value(current: Option<Seq<char>>, database_path: Seq<char>, state: DatabaseUrl)
    requires
        database_url_state(current, database_path, state),
    ensures
        current is None <==> state is Unset,
        current == Some(database_path) <==> state is Matches,
        current matches Some(url) ==> (url != database_path ==> (state matches DatabaseUrl::Differs(other) && other@ == url)),
        state.spec_needs_update() <==> !(state is Matches),
{
}

} // verus!
