//! Gateway configuration, and its merge from an external configuration file.
//!
//! The configuration collaborator (whatever parses the file format) hands the
//! gateway plain records through the [`ConfigFile`] trait; the merge into a
//! running [`Config`] — defaults, mode switches, and the rejection of unknown
//! log modes, outputs and levels — is the gateway's own rule set.
use vstd::prelude::*;

verus! {

/// The gateway's own configuration, immutable once the gateway runs.
#[derive(Debug, Clone)]
pub struct Config {
    pub auth: Auth,
    pub heartbeat: Option<u32>,
    pub log: Log,
}

#[derive(Debug, Clone)]
pub struct Auth {
    pub access_token: Option<String>,
}

#[derive(Debug, Clone)]
pub struct Log {
    pub output: LogOutput,
    pub path: Option<String>,
    pub level: LogLevel,
}

#[derive(Clone, Copy, PartialEq, Eq, Structural, Debug)]
pub enum LogOutput {
    Stderr,
    Stdout,
    Nul,
}

/// Log verbosity, as plain data; the logging sink in front of the gateway
/// translates it to whatever its backend wants.
#[derive(Clone, Copy, PartialEq, Eq, Structural, Debug)]
pub enum LogLevel {
    Error,
    Warn,
    Info,
    Debug,
    Trace,
}

/// A fatal configuration fault, raised before anything starts.
#[derive(Clone, Copy, PartialEq, Eq, Structural, Debug)]
pub enum ConfigError {
    /// The log mode is none of `terminal`, `file`, `all`, `off`.
    UnknownLogMode,
    /// The terminal output is neither `stderr` nor `stdout`.
    UnknownLogOutput,
    /// The log level is none of `error`, `warn`, `info`, `debug`, `trace`.
    UnknownLogLevel,
    /// The transport descriptor names no known transport kind.
    UnknownCommType,
    /// The gateway was started without a platform name.
    MissingPlatform,
    /// The gateway was started without a bot self-identifier.
    MissingSelfId,
    /// The gateway was started without a configuration.
    MissingConfig,
}

/// The view of an optional owned string.
pub open spec fn opt_str_view(o: Option<String>) -> Option<Seq<char>> {
    match o {
        Some(s) => Some(s@),
        None => None,
    }
}

impl Config {
    /// The default configuration: no token, no heartbeat, informational
    /// logging to stderr and to `./onebot.log`.
    pub fn new() -> (c: Config)
        ensures
            c.auth.access_token is None,
            c.heartbeat is None,
            c.log.output == LogOutput::Stderr,
            opt_str_view(c.log.path) == Some("./onebot.log"@),
            c.log.level == LogLevel::Info,
    {
        Config {
            auth: Auth { access_token: None },
            heartbeat: None,
            log: Log {
                output: LogOutput::Stderr,
                path: Some("./onebot.log".to_owned()),
                level: LogLevel::Info,
            },
        }
    }

    /// An exact copy.
    pub fn duplicate(&self) -> (c: Config)
        ensures
            c == *self,
    {
        Config {
            auth: Auth {
                access_token: match &self.auth.access_token {
                    Some(t) => Some(t.clone()),
                    None => None,
                },
            },
            heartbeat: self.heartbeat,
            log: Log {
                output: self.log.output,
                path: match &self.log.path {
                    Some(p) => Some(p.clone()),
                    None => None,
                },
                level: self.log.level,
            },
        }
    }

    /// Merges an external configuration file over the defaults.
    pub fn from_config_file<F: ConfigFile>(config_file: &F) -> (r: Result<Config, ConfigError>)
        ensures
            match config_file.log_spec() {
                Some(l) => r is Err <==> log_config_error(l) is Some,
                None => r is Ok,
            },
            r matches Err(e) ==> Some(e) == log_config_error(config_file.log_spec().unwrap()),
            r matches Ok(c) ==> {
                &&& opt_str_view(c.auth.access_token) == merged_token(config_file.auth_spec())
                &&& c.heartbeat == merged_heartbeat(config_file.heartbeat_spec())
                &&& c.log.output == merged_output(config_file.log_spec())
                &&& opt_str_view(c.log.path) == merged_path(config_file.log_spec())
                &&& c.log.level == merged_level(config_file.log_spec())
            },
    {
        let mut config = Config::new();

        if let Some(auth) = config_file.auth() {
            if let Some(access_token) = &auth.access_token {
                config.auth.access_token = Some(access_token.clone());
            }
        }

        if let Some(log) = config_file.log() {
            let terminal = log.mode == "terminal".to_owned();
            let file = log.mode == "file".to_owned();
            let all = log.mode == "all".to_owned();
            let off = log.mode == "off".to_owned();
            if !terminal && !file && !all && !off {
                return Err(ConfigError::UnknownLogMode);
            }
            if terminal || all {
                if let Some(output) = &log.output {
                    if *output == "stderr".to_owned() {
                        config.log.output = LogOutput::Stderr;
                    } else if *output == "stdout".to_owned() {
                        config.log.output = LogOutput::Stdout;
                    } else {
                        return Err(ConfigError::UnknownLogOutput);
                    }
                }
            } else {
                config.log.output = LogOutput::Nul;
            }
            if file || all {
                if let Some(path) = &log.path {
                    config.log.path = Some(path.clone());
                }
            } else {
                config.log.path = None;
            }
            if let Some(level) = &log.level {
                if *level == "error".to_owned() {
                    config.log.level = LogLevel::Error;
                } else if *level == "warn".to_owned() {
                    config.log.level = LogLevel::Warn;
                } else if *level == "info".to_owned() {
                    config.log.level = LogLevel::Info;
                } else if *level == "debug".to_owned() {
                    config.log.level = LogLevel::Debug;
                } else if *level == "trace".to_owned() {
                    config.log.level = LogLevel::Trace;
                } else {
                    return Err(ConfigError::UnknownLogLevel);
                }
            }
        }

        if let Some(heartbeat) = config_file.heartbeat() {
            if !heartbeat.enable {
                config.heartbeat = None;
            } else {
                config.heartbeat = Some(
                    match heartbeat.interval {
                        Some(i) => i,
                        None => 1000,
                    },
                );
            }
        }

        Ok(config)
    }
}

impl Default for Config {
    fn default() -> (c: Config)
        ensures
            c.auth.access_token is None,
            c.heartbeat is None,
            c.log.output == LogOutput::Stderr,
            opt_str_view(c.log.path) == Some("./onebot.log"@),
            c.log.level == LogLevel::Info,
    {
        Config::new()
    }
}

/// Whether the file names a known log mode.
pub open spec fn log_mode_ok(mode: Seq<char>) -> bool {
    ||| mode == "terminal"@
    ||| mode == "file"@
    ||| mode == "all"@
    ||| mode == "off"@
}

/// The terminal output a file value names, if any.
pub open spec fn parse_output(o: Seq<char>) -> Option<LogOutput> {
    if o == "stderr"@ {
        Some(LogOutput::Stderr)
    } else if o == "stdout"@ {
        Some(LogOutput::Stdout)
    } else {
        None
    }
}

/// The log level a file value names, if any.
pub open spec fn parse_level(l: Seq<char>) -> Option<LogLevel> {
    if l == "error"@ {
        Some(LogLevel::Error)
    } else if l == "warn"@ {
        Some(LogLevel::Warn)
    } else if l == "info"@ {
        Some(LogLevel::Info)
    } else if l == "debug"@ {
        Some(LogLevel::Debug)
    } else if l == "trace"@ {
        Some(LogLevel::Trace)
    } else {
        None
    }
}

/// The first fault in the file's log section, if any: an unknown mode, an
/// unknown terminal output under a terminal mode, or an unknown level.
pub open spec fn log_config_error(l: ConfigFileLog) -> Option<ConfigError> {
    if !log_mode_ok(l.mode@) {
        Some(ConfigError::UnknownLogMode)
    } else if (l.mode@ == "terminal"@ || l.mode@ == "all"@) && (match l.output {
        Some(o) => parse_output(o@) is None,
        None => false,
    }) {
        Some(ConfigError::UnknownLogOutput)
    } else if (match l.level {
        Some(v) => parse_level(v@) is None,
        None => false,
    }) {
        Some(ConfigError::UnknownLogLevel)
    } else {
        None
    }
}

/// The access token after the merge: the file's, if it names one.
pub open spec fn merged_token(a: Option<ConfigFileAuth>) -> Option<Seq<char>> {
    match a {
        Some(auth) => opt_str_view(auth.access_token),
        None => None,
    }
}

/// The heartbeat interval after the merge: the file's interval (default 1000)
/// when enabled, none otherwise.
pub open spec fn merged_heartbeat(h: Option<ConfigFileHeartBeat>) -> Option<u32> {
    match h {
        Some(hb) => if hb.enable {
            Some(
                match hb.interval {
                    Some(i) => i,
                    None => 1000,
                },
            )
        } else {
            None
        },
        None => None,
    }
}

/// The terminal output after a faultless merge.
pub open spec fn merged_output(l: Option<ConfigFileLog>) -> LogOutput {
    match l {
        None => LogOutput::Stderr,
        Some(log) => if log.mode@ == "terminal"@ || log.mode@ == "all"@ {
            match log.output {
                Some(o) => parse_output(o@).unwrap(),
                None => LogOutput::Stderr,
            }
        } else {
            LogOutput::Nul
        },
    }
}

/// The log file path after a faultless merge.
pub open spec fn merged_path(l: Option<ConfigFileLog>) -> Option<Seq<char>> {
    match l {
        None => Some("./onebot.log"@),
        Some(log) => if log.mode@ == "file"@ || log.mode@ == "all"@ {
            match log.path {
                Some(p) => Some(p@),
                None => Some("./onebot.log"@),
            }
        } else {
            None
        },
    }
}

/// The log level after a faultless merge.
pub open spec fn merged_level(l: Option<ConfigFileLog>) -> LogLevel {
    match l {
        None => LogLevel::Info,
        Some(log) => match log.level {
            Some(v) => parse_level(v@).unwrap(),
            None => LogLevel::Info,
        },
    }
}

/// What a builder that only sets the log output keeps: everything else of the
/// previous configuration, or the defaults when none was set yet.
pub open spec fn kept_but_log_output(pre: Option<Config>, c: Config) -> bool {
    match pre {
        Some(o) => c.auth == o.auth && c.heartbeat == o.heartbeat && c.log.path == o.log.path
            && c.log.level == o.log.level,
        None => c.auth.access_token is None && c.heartbeat is None && opt_str_view(c.log.path)
            == Some("./onebot.log"@) && c.log.level == LogLevel::Info,
    }
}

/// What a builder that only sets the log path keeps.
pub open spec fn kept_but_log_path(pre: Option<Config>, c: Config) -> bool {
    match pre {
        Some(o) => c.auth == o.auth && c.heartbeat == o.heartbeat && c.log.output == o.log.output
            && c.log.level == o.log.level,
        None => c.auth.access_token is None && c.heartbeat is None && c.log.output
            == LogOutput::Stderr && c.log.level == LogLevel::Info,
    }
}

/// What a builder that only sets the log level keeps.
pub open spec fn kept_but_log_level(pre: Option<Config>, c: Config) -> bool {
    match pre {
        Some(o) => c.auth == o.auth && c.heartbeat == o.heartbeat && c.log.output == o.log.output
            && c.log.path == o.log.path,
        None => c.auth.access_token is None && c.heartbeat is None && c.log.output
            == LogOutput::Stderr && opt_str_view(c.log.path) == Some("./onebot.log"@),
    }
}

/// The records an external configuration file hands the gateway.  Each exec
/// accessor returns exactly the record its spec twin describes, so the merge
/// can be pinned to the file's contents.
pub trait ConfigFile {
    spec fn auth_spec(&self) -> Option<ConfigFileAuth>;

    spec fn comm_methods_spec(&self) -> Option<Seq<(String, ConfigFileCommMethod)>>;

    spec fn heartbeat_spec(&self) -> Option<ConfigFileHeartBeat>;

    spec fn log_spec(&self) -> Option<ConfigFileLog>;

    fn auth(&self) -> (r: Option<&ConfigFileAuth>)
        ensures
            match r {
                Some(a) => self.auth_spec() == Some(*a),
                None => self.auth_spec() is None,
            },
    ;

    fn comm_methods(&self) -> (r: Option<&Vec<(String, ConfigFileCommMethod)>>)
        ensures
            match r {
                Some(ms) => self.comm_methods_spec() == Some(ms@),
                None => self.comm_methods_spec() is None,
            },
    ;

    fn heartbeat(&self) -> (r: Option<&ConfigFileHeartBeat>)
        ensures
            match r {
                Some(h) => self.heartbeat_spec() == Some(*h),
                None => self.heartbeat_spec() is None,
            },
    ;

    fn log(&self) -> (r: Option<&ConfigFileLog>)
        ensures
            match r {
                Some(l) => self.log_spec() == Some(*l),
                None => self.log_spec() is None,
            },
    ;
}

pub struct ConfigFileAuth {
    pub access_token: Option<String>,
}

/// One transport descriptor from the file: a kind and its parameters.
pub struct ConfigFileCommMethod {
    pub kind: String,
    pub host: Option<String>,
    pub port: Option<u16>,
    pub url: Option<String>,
    pub timeout: Option<u32>,
    pub secret: Option<String>,
    pub reconnect_interval: Option<u32>,
}

pub struct ConfigFileHeartBeat {
    pub enable: bool,
    pub interval: Option<u32>,
}

pub struct ConfigFileLog {
    pub mode: String,
    pub output: Option<String>,
    pub path: Option<String>,
    pub level: Option<String>,
}

/// An in-memory configuration file: every section optional, none by default.
pub struct DefaultConfigFile {
    pub auth: Option<ConfigFileAuth>,
    pub comm_method: Option<Vec<(String, ConfigFileCommMethod)>>,
    pub heartbeat: Option<ConfigFileHeartBeat>,
    pub log: Option<ConfigFileLog>,
}

impl DefaultConfigFile {
    pub fn new() -> (f: DefaultConfigFile)
        ensures
            f.auth is None,
            f.comm_method is None,
            f.heartbeat is None,
            f.log is None,
    {
        DefaultConfigFile { auth: None, comm_method: None, heartbeat: None, log: None }
    }
}

impl Default for DefaultConfigFile {
    fn default() -> (f: DefaultConfigFile)
        ensures
            f.auth is None,
            f.comm_method is None,
            f.heartbeat is None,
            f.log is None,
    {
        DefaultConfigFile::new()
    }
}

impl ConfigFile for DefaultConfigFile {
    open spec fn auth_spec(&self) -> Option<ConfigFileAuth> {
        self.auth
    }

    open spec fn comm_methods_spec(&self) -> Option<Seq<(String, ConfigFileCommMethod)>> {
        match self.comm_method {
            Some(ms) => Some(ms@),
            None => None,
        }
    }

    open spec fn heartbeat_spec(&self) -> Option<ConfigFileHeartBeat> {
        self.heartbeat
    }

    open spec fn log_spec(&self) -> Option<ConfigFileLog> {
        self.log
    }

    fn auth(&self) -> (r: Option<&ConfigFileAuth>)
        ensures
            match r {
                Some(a) => self.auth_spec() == Some(*a),
                None => self.auth_spec() is None,
            },
    {
        match &self.auth {
            Some(a) => Some(a),
            None => None,
        }
    }

    fn comm_methods(&self) -> (r: Option<&Vec<(String, ConfigFileCommMethod)>>)
        ensures
            match r {
                Some(ms) => self.comm_methods_spec() == Some(ms@),
                None => self.comm_methods_spec() is None,
            },
    {
        match &self.comm_method {
            Some(ms) => Some(ms),
            None => None,
        }
    }

    fn heartbeat(&self) -> (r: Option<&ConfigFileHeartBeat>)
        ensures
            match r {
                Some(h) => self.heartbeat_spec() == Some(*h),
                None => self.heartbeat_spec() is None,
            },
    {
        match &self.heartbeat {
            Some(h) => Some(h),
            None => None,
        }
    }

    fn log(&self) -> (r: Option<&ConfigFileLog>)
        ensures
            match r {
                Some(l) => self.log_spec() == Some(*l),
                None => self.log_spec() is None,
            },
    {
        match &self.log {
            Some(l) => Some(l),
            None => None,
        }
    }
}

} // verus!
