use vstd::prelude::*;
use vstd::string::*;

verus! {

/// Delay before any retry, in seconds, when the configuration gives none.
pub const DEFAULT_RETRY_SECS: u64 = 60;

/// Longest wait for server activity, in seconds, when the configuration gives none.
pub const DEFAULT_IDLE_TIMEOUT_SECS: u64 = 600;

/// Port used for a secure connection when the account names none.
pub const DEFAULT_TLS_PORT: u16 = 993;

/// Port used for a plain connection when the account names none.
pub const DEFAULT_PLAIN_PORT: u16 = 143;

/// Where log output goes and how much of it.
#[derive(Clone, Debug)]
pub struct LogConfig {
    pub level: String,
    pub file: String,
}

impl LogConfig {
    /// Level `info`, no file.
    pub fn default() -> (r: LogConfig)
        ensures
            r.level@ == "info"@,
            r.file@ == ""@,
    {
        LogConfig { level: String::from_str("info"), file: String::from_str("") }
    }

    /// The level that `level` names; an unknown name means `Info`.
    pub fn log_level(&self) -> (r: LogLevel)
        ensures
            r == level_named(self.level@),
    {
        parse_level(&self.level)
    }
}

/// How much is logged.
#[derive(Clone, Copy, Debug, PartialEq, Eq, Structural)]
pub enum LogLevel {
    Debug,
    Info,
    Warn,
    Error,
}

/// The level a configured name selects: the four known names, `Info` otherwise.
pub open spec fn level_named(s: Seq<char>) -> LogLevel {
    if s == "debug"@ {
        LogLevel::Debug
    } else if s == "warn"@ {
        LogLevel::Warn
    } else if s == "error"@ {
        LogLevel::Error
    } else {
        LogLevel::Info
    }
}

/// Reads a configured level name.
pub fn parse_level(s: &String) -> (r: LogLevel)
    ensures
        r == level_named(s@),
{
    let debug = String::from_str("debug");
    let warn = String::from_str("warn");
    let error = String::from_str("error");
    if *s == debug {
        LogLevel::Debug
    } else if *s == warn {
        LogLevel::Warn
    } else if *s == error {
        LogLevel::Error
    } else {
        LogLevel::Info
    }
}


/// One watched mail account.
#[derive(Clone, Debug)]
pub struct Account {
    pub host: String,
    pub user: String,
    pub pass: String,
    /// Whether the connection is secured by TLS.
    pub tls: bool,
    /// Shell command lines run, in order, each time the wait ends.
    pub commands: Vec<String>,
    pub port: Option<u16>,
    /// Name used in the log; the host when absent.
    pub name: Option<String>,
    /// Accepted from the configuration; the worker watches the inbox only.
    pub folders: Option<Vec<String>>,
}

/// The port an account connects to: its own, else the standard one for its
/// transport.
pub open spec fn port_of(a: Account) -> u16 {
    match a.port {
        Some(p) => p,
        None => if a.tls {
            DEFAULT_TLS_PORT
        } else {
            DEFAULT_PLAIN_PORT
        },
    }
}

/// The name an account goes by: its own, else its host.
pub open spec fn display_name_of(a: Account) -> Seq<char> {
    match a.name {
        Some(n) => n@,
        None => a.host@,
    }
}

impl Account {
    /// A secure account on `localhost:993` named `default`, with no credentials
    /// and no commands.
    pub fn default() -> (r: Account)
        ensures
            r.host@ == "localhost"@,
            r.user@ == ""@,
            r.pass@ == ""@,
            r.tls,
            r.commands@.len() == 0,
            r.port == Some(993u16),
            r.name.is_some() && r.name.unwrap()@ == "default"@,
            r.folders.is_none(),
    {
        Account {
            folders: None,
            commands: Vec::new(),
            host: String::from_str("localhost"),
            port: Some(DEFAULT_TLS_PORT),
            tls: true,
            user: String::from_str(""),
            pass: String::from_str(""),
            name: Some(String::from_str("default")),
        }
    }

    /// The port to connect to.
    pub fn port_or_default(&self) -> (r: u16)
        ensures
            r == port_of(*self),
    {
        match self.port {
            Some(p) => p,
            None => if self.tls {
                DEFAULT_TLS_PORT
            } else {
                DEFAULT_PLAIN_PORT
            },
        }
    }

    /// The name to log under.
    pub fn display_name(&self) -> (r: String)
        ensures
            r@ == display_name_of(*self),
    {
        match &self.name {
            Some(n) => n.clone(),
            None => self.host.clone(),
        }
    }
}

/// The two timing settings that every worker shares.
#[derive(Clone, Copy, Debug, PartialEq, Eq, Structural)]
pub struct Settings {
    /// Seconds slept after every cycle, failed or not.
    pub retry: u64,
    /// Seconds the wait for server activity lasts at most.
    pub idle_timeout: u64,
}

/// The whole configuration, read once at startup.
#[derive(Clone, Debug)]
pub struct Conf {
    pub retry: u64,
    pub idle_timeout: u64,
    pub accounts: Vec<Account>,
    pub log: LogConfig,
}

impl Conf {
    /// No accounts, the default timings and the default log settings.
    pub fn default() -> (r: Conf)
        ensures
            r.retry == DEFAULT_RETRY_SECS,
            r.idle_timeout == DEFAULT_IDLE_TIMEOUT_SECS,
            r.accounts@.len() == 0,
            r.log.level@ == "info"@,
            r.log.file@ == ""@,
    {
        Conf {
            retry: DEFAULT_RETRY_SECS,
            idle_timeout: DEFAULT_IDLE_TIMEOUT_SECS,
            accounts: Vec::new(),
            log: LogConfig::default(),
        }
    }

    /// A configuration from the entries that were given, each missing one
    /// taking its default.
    pub fn from_parts(
        retry: Option<u64>,
        idle_timeout: Option<u64>,
        accounts: Option<Vec<Account>>,
        log: Option<LogConfig>,
    ) -> (r: Conf)
        ensures
            r.retry == (match retry {
                Some(v) => v,
                None => DEFAULT_RETRY_SECS,
            }),
            r.idle_timeout == (match idle_timeout {
                Some(v) => v,
                None => DEFAULT_IDLE_TIMEOUT_SECS,
            }),
            accounts.is_some() ==> r.accounts == accounts.unwrap(),
            accounts.is_none() ==> r.accounts@.len() == 0,
            log.is_some() ==> r.log == log.unwrap(),
            log.is_none() ==> r.log.level@ == "info"@ && r.log.file@ == ""@,
    {
        let retry = match retry {
            Some(v) => v,
            None => DEFAULT_RETRY_SECS,
        };
        let idle_timeout = match idle_timeout {
            Some(v) => v,
            None => DEFAULT_IDLE_TIMEOUT_SECS,
        };
        let accounts = match accounts {
            Some(a) => a,
            None => Vec::new(),
        };
        let log = match log {
            Some(l) => l,
            None => LogConfig::default(),
        };
        Conf { retry, idle_timeout, accounts, log }
    }

    /// The timings every worker runs with.
    pub fn settings(&self) -> (r: Settings)
        ensures
            r.retry == self.retry,
            r.idle_timeout == self.idle_timeout,
    {
        Settings { retry: self.retry, idle_timeout: self.idle_timeout }
    }

    /// Switches logging to the `debug` level, leaving the rest as it was.
    pub fn enable_debug(&mut self)
        ensures
            final(self).log.level@ == "debug"@,
            final(self).log.file == old(self).log.file,
            final(self).retry == old(self).retry,
            final(self).idle_timeout == old(self).idle_timeout,
            final(self).accounts == old(self).accounts,
    {
        self.log.level = String::from_str("debug");
    }

    /// The configuration file to load: the one given if any, else the one
    /// found in the user's configuration directories; `None` (use the
    /// defaults) when neither names a file.
    pub fn source_path(given: Option<String>, discovered: Option<String>) -> (r: Option<String>)
        ensures
            r == source_of(given, discovered),
    {
        let path = match given {
            Some(p) => p,
            None => match discovered {
                Some(p) => p,
                None => String::new(),
            },
        };
        if path.as_str().is_empty() {
            None
        } else {
            Some(path)
        }
    }
}

/// The path chosen among a given and a discovered one; an empty path names
/// no file.
pub open spec fn source_of(given: Option<String>, discovered: Option<String>) -> Option<String> {
    let p = match given {
        Some(p) => Some(p),
        None => discovered,
    };
    match p {
        Some(s) => if s@.len() == 0 {
            None
        } else {
            Some(s)
        },
        None => None,
    }
}

} // verus!
