//! Application errors: their messages, whether they can be retried, the
//! recovery they suggest, the HTTP response they become, and the delays of
//! retries.
use vstd::prelude::*;
use crate::platform_error::{ConfigurationError, DatabaseError, PlatformError};
use crate::text::{concat2, concat3, owned, push_str, texts};

verus! {

/// The kinds of I/O failure the application tells apart.
#[derive(Debug, Clone, Copy, PartialEq, Eq, Structural)]
pub enum IoErrorKind {
    TimedOut,
    Interrupted,
    WouldBlock,
    ConnectionRefused,
    ConnectionAborted,
    NotConnected,
    PermissionDenied,
    NotFound,
    Other,
}

/// Application errors.
#[derive(Debug)]
pub enum AppError {
    NotFound,
    /// An internal failure, by its message.
    Internal(String),
    /// An I/O failure: its kind and its message.
    Io { kind: IoErrorKind, message: String },
    InvalidRange,
    /// An HTTP failure, by its message.
    Http(String),
    /// A file-watcher failure, by its message.
    Watcher(String),
    Platform(PlatformError),
    Database(DatabaseError),
    Configuration(ConfigurationError),
    MediaScan(String),
    NetworkDiscovery(String),
    FileServing(String),
}

impl AppError {
    /// The error's message.
    pub open spec fn text(&self) -> Seq<char> {
        match self {
            AppError::NotFound => "Not Found"@,
            AppError::Internal(_) => "Internal Server Error"@,
            AppError::Io { message, .. } => "I/O Error: "@ + message@,
            AppError::InvalidRange => "Invalid Range Header"@,
            AppError::Http(m) => "HTTP error: "@ + m@,
            AppError::Watcher(m) => "File watcher error: "@ + m@,
            AppError::Platform(e) => "Platform error: "@ + e.text(),
            AppError::Database(e) => "Database error: "@ + e.text(),
            AppError::Configuration(e) => "Configuration error: "@ + e.text(),
            AppError::MediaScan(m) => "Media scanning error: "@ + m@,
            AppError::NetworkDiscovery(m) => "Network discovery error: "@ + m@,
            AppError::FileServing(m) => "File serving error: "@ + m@,
        }
    }

    /// The error's message.
    pub fn message(&self) -> (res: String)
        ensures
            res@ == self.text(),
    {
        match self {
            AppError::NotFound => owned("Not Found"),
            AppError::Internal(_) => owned("Internal Server Error"),
            AppError::Io { message, .. } => concat2("I/O Error: ", message.as_str()),
            AppError::InvalidRange => owned("Invalid Range Header"),
            AppError::Http(m) => concat2("HTTP error: ", m.as_str()),
            AppError::Watcher(m) => concat2("File watcher error: ", m.as_str()),
            AppError::Platform(e) => {
                let m = e.message();
                concat2("Platform error: ", m.as_str())
            },
            AppError::Database(e) => {
                let m = e.message();
                concat2("Database error: ", m.as_str())
            },
            AppError::Configuration(e) => {
                let m = e.message();
                concat2("Configuration error: ", m.as_str())
            },
            AppError::MediaScan(m) => concat2("Media scanning error: ", m.as_str()),
            AppError::NetworkDiscovery(m) => concat2("Network discovery error: ", m.as_str()),
            AppError::FileServing(m) => concat2("File serving error: ", m.as_str()),
        }
    }

    /// Whether the failed operation may succeed if retried.
    pub open spec fn recoverable(&self) -> bool {
        match self {
            AppError::Io { kind, .. } => match kind {
                IoErrorKind::TimedOut | IoErrorKind::Interrupted | IoErrorKind::WouldBlock
                | IoErrorKind::ConnectionRefused | IoErrorKind::ConnectionAborted
                | IoErrorKind::NotConnected => true,
                _ => false,
            },
            AppError::Watcher(_) => true,
            AppError::Platform(e) => e.recoverable(),
            AppError::Database(e) => e.recoverable(),
            AppError::Configuration(e) => e.recoverable(),
            AppError::MediaScan(_) | AppError::NetworkDiscovery(_) | AppError::FileServing(_) => true,
            _ => false,
        }
    }

    /// Check if the error is recoverable and the operation can be retried.
    pub fn is_recoverable(&self) -> (res: bool)
        ensures
            res == self.recoverable(),
    {
        match self {
            AppError::NotFound => false,
            AppError::InvalidRange => false,
            AppError::Internal(_) => false,
            AppError::Io { kind, .. } => match kind {
                IoErrorKind::TimedOut => true,
                IoErrorKind::Interrupted => true,
                IoErrorKind::WouldBlock => true,
                IoErrorKind::ConnectionRefused => true,
                IoErrorKind::ConnectionAborted => true,
                IoErrorKind::NotConnected => true,
                _ => false,
            },
            AppError::Http(_) => false,
            AppError::Watcher(_) => true,
            AppError::Platform(e) => e.is_recoverable(),
            AppError::Database(e) => e.is_recoverable(),
            AppError::Configuration(e) => e.is_recoverable(),
            AppError::MediaScan(_) => true,
            AppError::NetworkDiscovery(_) => true,
            AppError::FileServing(_) => true,
        }
    }

    /// The suggested recovery actions.
    pub open spec fn actions(&self) -> Seq<Seq<char>> {
        match self {
            AppError::Platform(e) => e.actions(),
            AppError::Database(e) => e.actions(),
            AppError::Configuration(e) => e.actions(),
            AppError::Watcher(_) => seq![
                "Restart file system watcher"@,
                "Check directory permissions"@,
                "Verify watched directories exist"@,
            ],
            AppError::MediaScan(m) => seq![
                "Retry media scanning"@,
                "Check directory permissions"@,
                "Verify media directories are accessible"@,
                "Review error details: "@ + m@,
            ],
            AppError::NetworkDiscovery(m) => seq![
                "Check network connectivity"@,
                "Verify firewall settings"@,
                "Try alternative network interfaces"@,
                "Restart network discovery service"@,
                "Review error details: "@ + m@,
            ],
            AppError::FileServing(m) => seq![
                "Check file permissions"@,
                "Verify disk space availability"@,
                "Restart file serving component"@,
                "Review error details: "@ + m@,
            ],
            AppError::Io { kind, .. } => match kind {
                IoErrorKind::TimedOut => seq![
                    "Retry the operation"@,
                    "Check network connectivity"@,
                    "Increase timeout values"@,
                ],
                IoErrorKind::PermissionDenied => seq![
                    "Check file/directory permissions"@,
                    "Run with appropriate privileges"@,
                    "Verify user has access rights"@,
                ],
                IoErrorKind::NotFound => seq![
                    "Verify the file or directory exists"@,
                    "Check the path is correct"@,
                    "Create missing directories if needed"@,
                ],
                _ => seq![
                    "Check system resources"@,
                    "Verify file system integrity"@,
                    "Restart the application"@,
                ],
            },
            _ => seq![
                "Restart the application"@,
                "Check system logs for details"@,
                "Contact support if problem persists"@,
            ],
        }
    }

    /// Get suggested recovery actions for the error.
    pub fn recovery_actions(&self) -> (res: Vec<String>)
        ensures
            texts(res@) == self.actions(),
    {
        match self {
            AppError::Platform(e) => {
                return e.recovery_actions();
            },
            AppError::Database(e) => {
                return e.recovery_actions();
            },
            AppError::Configuration(e) => {
                return e.recovery_actions();
            },
            _ => {},
        }
        let mut v: Vec<String> = Vec::new();
        match self {
            AppError::Watcher(_) => {
                v.push(owned("Restart file system watcher"));
                v.push(owned("Check directory permissions"));
                v.push(owned("Verify watched directories exist"));
            },
            AppError::MediaScan(m) => {
                v.push(owned("Retry media scanning"));
                v.push(owned("Check directory permissions"));
                v.push(owned("Verify media directories are accessible"));
                v.push(concat2("Review error details: ", m.as_str()));
            },
            AppError::NetworkDiscovery(m) => {
                v.push(owned("Check network connectivity"));
                v.push(owned("Verify firewall settings"));
                v.push(owned("Try alternative network interfaces"));
                v.push(owned("Restart network discovery service"));
                v.push(concat2("Review error details: ", m.as_str()));
            },
            AppError::FileServing(m) => {
                v.push(owned("Check file permissions"));
                v.push(owned("Verify disk space availability"));
                v.push(owned("Restart file serving component"));
                v.push(concat2("Review error details: ", m.as_str()));
            },
            AppError::Io { kind, .. } => match kind {
                IoErrorKind::TimedOut => {
                    v.push(owned("Retry the operation"));
                    v.push(owned("Check network connectivity"));
                    v.push(owned("Increase timeout values"));
                },
                IoErrorKind::PermissionDenied => {
                    v.push(owned("Check file/directory permissions"));
                    v.push(owned("Run with appropriate privileges"));
                    v.push(owned("Verify user has access rights"));
                },
                IoErrorKind::NotFound => {
                    v.push(owned("Verify the file or directory exists"));
                    v.push(owned("Check the path is correct"));
                    v.push(owned("Create missing directories if needed"));
                },
                _ => {
                    v.push(owned("Check system resources"));
                    v.push(owned("Verify file system integrity"));
                    v.push(owned("Restart the application"));
                },
            },
            _ => {
                v.push(owned("Restart the application"));
                v.push(owned("Check system logs for details"));
                v.push(owned("Contact support if problem persists"));
            },
        }
        proof {
            assert(texts(v@) =~= self.actions());
        }
        v
    }

    /// The message shown to the user, with what it means and what to do.
    pub open spec fn friendly_text(&self) -> Seq<char> {
        match self {
            AppError::Platform(e) => e.user_text(),
            AppError::Database(e) => "Database Error: "@ + e.text()
                + "\n\nWhat this means: The application's database encountered an issue.\nRecovery: "@
                + e.strategy(),
            AppError::Configuration(e) => "Configuration Error: "@ + e.text()
                + "\n\nWhat this means: There's an issue with the application configuration.\nSolution: "@
                + e.solution(),
            AppError::MediaScan(m) => "Media Scanning Error: "@ + m@
                + "\n\nWhat this means: The application couldn't scan your media directories.\nSuggestion: Check that the directories exist and are accessible."@,
            AppError::NetworkDiscovery(m) => "Network Discovery Error: "@ + m@
                + "\n\nWhat this means: The application couldn't set up network discovery for DLNA clients.\nSuggestion: Check your network settings and firewall configuration."@,
            AppError::FileServing(m) => "File Serving Error: "@ + m@
                + "\n\nWhat this means: The application couldn't serve a media file to a client.\nSuggestion: Check file permissions and available disk space."@,
            AppError::Watcher(m) => "File Monitoring Error: "@ + m@
                + "\n\nWhat this means: The application couldn't monitor directories for file changes.\nSuggestion: Check directory permissions and restart the application."@,
            AppError::Io { message, .. } => "System Error: "@ + message@
                + "\n\nWhat this means: A system-level operation failed.\nSuggestion: Check file permissions, disk space, and network connectivity."@,
            _ => "Application Error: "@ + self.text()
                + "\n\nSuggestion: Try restarting the application or check the logs for more details."@,
        }
    }

    /// Get a user-friendly error message with context and guidance.
    pub fn user_friendly_message(&self) -> (res: String)
        ensures
            res@ == self.friendly_text(),
    {
        match self {
            AppError::Platform(e) => e.user_message(),
            AppError::Database(e) => {
                let m = e.message();
                let mut s = concat3(
                    "Database Error: ",
                    m.as_str(),
                    "\n\nWhat this means: The application's database encountered an issue.\nRecovery: ",
                );
                push_str(&mut s, e.recovery_strategy());
                s
            },
            AppError::Configuration(e) => {
                let m = e.message();
                let mut s = concat3(
                    "Configuration Error: ",
                    m.as_str(),
                    "\n\nWhat this means: There's an issue with the application configuration.\nSolution: ",
                );
                push_str(&mut s, e.solution_guide());
                s
            },
            AppError::MediaScan(m) => concat3(
                "Media Scanning Error: ",
                m.as_str(),
                "\n\nWhat this means: The application couldn't scan your media directories.\nSuggestion: Check that the directories exist and are accessible.",
            ),
            AppError::NetworkDiscovery(m) => concat3(
                "Network Discovery Error: ",
                m.as_str(),
                "\n\nWhat this means: The application couldn't set up network discovery for DLNA clients.\nSuggestion: Check your network settings and firewall configuration.",
            ),
            AppError::FileServing(m) => concat3(
                "File Serving Error: ",
                m.as_str(),
                "\n\nWhat this means: The application couldn't serve a media file to a client.\nSuggestion: Check file permissions and available disk space.",
            ),
            AppError::Watcher(m) => concat3(
                "File Monitoring Error: ",
                m.as_str(),
                "\n\nWhat this means: The application couldn't monitor directories for file changes.\nSuggestion: Check directory permissions and restart the application.",
            ),
            AppError::Io { message, .. } => concat3(
                "System Error: ",
                message.as_str(),
                "\n\nWhat this means: A system-level operation failed.\nSuggestion: Check file permissions, disk space, and network connectivity.",
            ),
            _ => {
                let m = self.message();
                concat3(
                    "Application Error: ",
                    m.as_str(),
                    "\n\nSuggestion: Try restarting the application or check the logs for more details.",
                )
            },
        }
    }

    /// The HTTP status and body an error answers a request with.
    pub open spec fn response_spec(&self) -> (u16, Seq<char>) {
        match self {
            AppError::NotFound => (404, self.text()),
            AppError::InvalidRange => (416, self.text()),
            AppError::Platform(e) => (500, e.user_text()),
            AppError::Database(e) => (500, e.text() + "\n\nRecovery: "@ + e.strategy()),
            AppError::Configuration(e) => (500, e.text() + "\n\nSolution: "@ + e.solution()),
            AppError::MediaScan(m) => (
                500,
                "Media scanning failed: "@ + m@ + ". Try rescanning or check directory permissions."@,
            ),
            AppError::NetworkDiscovery(m) => (
                503,
                "Network discovery failed: "@ + m@ + ". Check network configuration and firewall settings."@,
            ),
            AppError::FileServing(m) => (
                500,
                "File serving error: "@ + m@ + ". Check file permissions and disk space."@,
            ),
            _ => (500, self.text()),
        }
    }

    /// The HTTP status code and body of the response for this error.
    pub fn response(&self) -> (res: (u16, String))
        ensures
            (res.0, res.1@) == self.response_spec(),
    {
        match self {
            AppError::NotFound => (404, self.message()),
            AppError::InvalidRange => (416, self.message()),
            AppError::Platform(e) => (500, e.user_message()),
            AppError::Database(e) => {
                let m = e.message();
                let mut s = concat2(m.as_str(), "\n\nRecovery: ");
                push_str(&mut s, e.recovery_strategy());
                (500, s)
            },
            AppError::Configuration(e) => {
                let m = e.message();
                let mut s = concat2(m.as_str(), "\n\nSolution: ");
                push_str(&mut s, e.solution_guide());
                (500, s)
            },
            AppError::MediaScan(m) => (
                500,
                concat3("Media scanning failed: ", m.as_str(), ". Try rescanning or check directory permissions."),
            ),
            AppError::NetworkDiscovery(m) => (
                503,
                concat3(
                    "Network discovery failed: ",
                    m.as_str(),
                    ". Check network configuration and firewall settings.",
                ),
            ),
            AppError::FileServing(m) => (
                500,
                concat3("File serving error: ", m.as_str(), ". Check file permissions and disk space."),
            ),
            _ => (500, self.message()),
        }
    }
}

/// The delay before the next retry: double the last one, at most thirty
/// seconds.
pub open spec fn next_delay(delay_ms: u64) -> u64 {
    if delay_ms * 2 < 30000 {
        (delay_ms * 2) as u64
    } else {
        30000
    }
}

/// The delay before the next retry, in milliseconds.
pub fn next_backoff_delay(delay_ms: u64) -> (res: u64)
    requires
        delay_ms * 2 <= u64::MAX,
    ensures
        res == next_delay(delay_ms),
{
    let d = delay_ms * 2;
    if d < 30000 {
        d
    } else {
        30000
    }
}

/// What a retry with backoff does after a failed attempt.
#[derive(Debug, Clone, Copy, PartialEq, Eq, Structural)]
pub enum RetryStep {
    /// The last attempt failed: its error is given back.
    GiveUp,
    /// Wait `wait_ms` milliseconds and try again; the wait after that is
    /// `next_ms`, which is `None` where doubling the wait overflows.
    Wait { wait_ms: u64, next_ms: Option<u64> },
}

/// The step after attempt `attempt` of `max_attempts` failed, the current
/// wait being `delay_ms`.
pub open spec fn retry_step_spec(attempt: u32, max_attempts: u32, delay_ms: u64) -> RetryStep {
    if attempt >= max_attempts {
        RetryStep::GiveUp
    } else {
        RetryStep::Wait {
            wait_ms: delay_ms,
            next_ms: if delay_ms * 2 <= u64::MAX {
                Some(next_delay(delay_ms))
            } else {
                None
            },
        }
    }
}

/// Decide what follows a failed attempt of a retry with backoff: give up
/// after the last attempt, else wait the current delay and double it for
/// the next wait, at most thirty seconds.
pub fn retry_step(attempt: u32, max_attempts: u32, delay_ms: u64) -> (res: RetryStep)
    ensures
        res == retry_step_spec(attempt, max_attempts, delay_ms),
{
    if attempt >= max_attempts {
        RetryStep::GiveUp
    } else {
        let next_ms = if delay_ms <= u64::MAX / 2 {
            Some(next_backoff_delay(delay_ms))
        } else {
            None
        };
        RetryStep::Wait { wait_ms: delay_ms, next_ms }
    }
}

/// How loudly a log line is written.
#[derive(Debug, Clone, Copy, PartialEq, Eq, Structural)]
pub enum LogLevel {
    Debug,
    Info,
    Warn,
    Error,
}

/// The views of log lines.
pub open spec fn log_views(v: Seq<(LogLevel, String)>) -> Seq<(LogLevel, Seq<char>)> {
    v.map_values(|e: (LogLevel, String)| (e.0, e.1@))
}

impl AppError {
    /// The lines logged for this error: the error at a level that fits it,
    /// then, where there is one, the way to recover.
    pub open spec fn log_lines(&self) -> Seq<(LogLevel, Seq<char>)> {
        match self {
            AppError::Platform(e) => seq![(LogLevel::Error, "Platform error: "@ + e.text())] + if e.recoverable() {
                seq![(LogLevel::Info, "Recovery actions available: "@ + crate::debug_fmt::debug_list(e.actions()))]
            } else {
                Seq::empty()
            },
            AppError::Database(e) => seq![(LogLevel::Error, "Database error: "@ + e.text())] + if e.recoverable() {
                seq![(LogLevel::Info, "Database recovery strategy: "@ + e.strategy())]
            } else {
                Seq::empty()
            },
            AppError::Configuration(e) => seq![
                (LogLevel::Warn, "Configuration error: "@ + e.text()),
                (LogLevel::Info, "Configuration solution: "@ + e.solution()),
            ],
            AppError::MediaScan(m) => seq![
                (LogLevel::Warn, "Media scan error: "@ + m@),
                (LogLevel::Info, "Media scanning can be retried or directories can be reconfigured"@),
            ],
            AppError::NetworkDiscovery(m) => seq![
                (LogLevel::Error, "Network discovery error: "@ + m@),
                (LogLevel::Info, "Check network configuration and firewall settings"@),
            ],
            AppError::FileServing(m) => seq![
                (LogLevel::Warn, "File serving error: "@ + m@),
                (LogLevel::Info, "Check file permissions and disk space"@),
            ],
            AppError::Watcher(m) => seq![
                (LogLevel::Warn, "File watcher error: "@ + m@),
                (LogLevel::Info, "File monitoring can be restarted"@),
            ],
            AppError::NotFound => seq![(LogLevel::Debug, "Resource not found - this is normal for some requests"@)],
            AppError::InvalidRange => seq![(LogLevel::Debug, "Invalid range request - client issue"@)],
            _ => seq![(LogLevel::Error, "Application error: "@ + self.text())],
        }
    }

    /// The lines to log for this error.
    pub fn log_entries(&self) -> (res: Vec<(LogLevel, String)>)
        ensures
            log_views(res@) == self.log_lines(),
    {
        let mut v: Vec<(LogLevel, String)> = Vec::new();
        match self {
            AppError::Platform(e) => {
                v.push((LogLevel::Error, concat2("Platform error: ", e.message().as_str())));
                if e.is_recoverable() {
                    let actions = e.recovery_actions();
                    v.push((LogLevel::Info, concat2(
                        "Recovery actions available: ",
                        crate::debug_fmt::debug_string_list(&actions).as_str(),
                    )));
                }
            },
            AppError::Database(e) => {
                v.push((LogLevel::Error, concat2("Database error: ", e.message().as_str())));
                if e.is_recoverable() {
                    v.push((LogLevel::Info, concat2("Database recovery strategy: ", e.recovery_strategy())));
                }
            },
            AppError::Configuration(e) => {
                v.push((LogLevel::Warn, concat2("Configuration error: ", e.message().as_str())));
                v.push((LogLevel::Info, concat2("Configuration solution: ", e.solution_guide())));
            },
            AppError::MediaScan(m) => {
                v.push((LogLevel::Warn, concat2("Media scan error: ", m.as_str())));
                v.push((LogLevel::Info, owned("Media scanning can be retried or directories can be reconfigured")));
            },
            AppError::NetworkDiscovery(m) => {
                v.push((LogLevel::Error, concat2("Network discovery error: ", m.as_str())));
                v.push((LogLevel::Info, owned("Check network configuration and firewall settings")));
            },
            AppError::FileServing(m) => {
                v.push((LogLevel::Warn, concat2("File serving error: ", m.as_str())));
                v.push((LogLevel::Info, owned("Check file permissions and disk space")));
            },
            AppError::Watcher(m) => {
                v.push((LogLevel::Warn, concat2("File watcher error: ", m.as_str())));
                v.push((LogLevel::Info, owned("File monitoring can be restarted")));
            },
            AppError::NotFound => {
                v.push((LogLevel::Debug, owned("Resource not found - this is normal for some requests")));
            },
            AppError::InvalidRange => {
                v.push((LogLevel::Debug, owned("Invalid range request - client issue")));
            },
            _ => {
                v.push((LogLevel::Error, concat2("Application error: ", self.message().as_str())));
            },
        }
        proof {
            assert(log_views(v@) =~= self.log_lines());
        }
        v
    }
}

} // verus!
