//! What can go wrong, and how it is told.

use vstd::prelude::*;
use vstd::string::StringExecFns;
use crate::text::{decimal, occurs_in, push_decimal, push_shortest, shortest, str_contains};

verus! {

/// `std::io::Error`, carried along as it comes.
#[verifier::external_type_specification]
#[verifier::external_body]
pub struct ExIoError(std::io::Error);

/// What can go wrong with the terminal.
#[derive(Debug)]
pub enum TerminalError {
    /// The terminal has fewer cells than the scene needs.
    TooSmall { width: u16, height: u16, min_width: u16, min_height: u16 },
    /// Output does not go to a terminal.
    NotATty,
    /// Raw mode could not be switched on.
    RawModeError(std::io::Error),
    /// The terminal did not tell its size.
    SizeError(std::io::Error),
    /// The alternate screen could not be entered.
    InitError(std::io::Error),
    /// Writing to the terminal failed.
    IoError(std::io::Error),
}

/// The text of a too-small report for people.
pub open spec fn too_small_text(width: u16, height: u16, min_width: u16, min_height: u16) -> Seq<
    char,
> {
    "Terminal window is too small ("@ + decimal(width as nat) + "x"@ + decimal(height as nat)
        + ").\nPlease resize to at least "@ + decimal(min_width as nat) + "x"@ + decimal(
        min_height as nat,
    ) + " characters."@
}

/// The short text of a too-small report.
pub open spec fn too_small_line(width: u16, height: u16, min_width: u16, min_height: u16) -> Seq<
    char,
> {
    "terminal is too small (minimum: "@ + decimal(min_width as nat) + "x"@ + decimal(
        min_height as nat,
    ) + ", current: "@ + decimal(width as nat) + "x"@ + decimal(height as nat) + ")"@
}

impl TerminalError {
    /// The error in one line.
    pub open spec fn line(&self) -> Seq<char> {
        match *self {
            TerminalError::TooSmall { width, height, min_width, min_height } => too_small_line(
                width,
                height,
                min_width,
                min_height,
            ),
            TerminalError::NotATty => "not running in a terminal (output is redirected or piped)"@,
            TerminalError::RawModeError(_) => "failed to enable raw mode"@,
            TerminalError::SizeError(_) => "failed to get terminal size"@,
            TerminalError::InitError(_) => "failed to initialize terminal"@,
            TerminalError::IoError(_) => "terminal I/O error"@,
        }
    }

    /// What to tell the person at the terminal.
    pub open spec fn advice(&self) -> Seq<char> {
        match *self {
            TerminalError::TooSmall { width, height, min_width, min_height } => too_small_text(
                width,
                height,
                min_width,
                min_height,
            ),
            TerminalError::NotATty => "This application must be run in a terminal.\nIt cannot work when output is redirected or piped."@,
            TerminalError::RawModeError(
                _,
            ) => "Failed to initialize terminal raw mode.\nYou may need to run this in a proper terminal emulator."@,
            TerminalError::SizeError(
                _,
            ) => "Cannot detect terminal size.\nMake sure you're running in a standard terminal."@,
            _ => self.line(),
        }
    }

    /// The error in one line.
    pub fn to_string(&self) -> (text: String)
        ensures
            text@ == self.line(),
    {
        match self {
            TerminalError::TooSmall { width, height, min_width, min_height } => {
                let mut text = String::from_str("terminal is too small (minimum: ");
                push_decimal(&mut text, *min_width as u64);
                text.append("x");
                push_decimal(&mut text, *min_height as u64);
                text.append(", current: ");
                push_decimal(&mut text, *width as u64);
                text.append("x");
                push_decimal(&mut text, *height as u64);
                text.append(")");
                text
            },
            TerminalError::NotATty => String::from_str(
                "not running in a terminal (output is redirected or piped)",
            ),
            TerminalError::RawModeError(_) => String::from_str("failed to enable raw mode"),
            TerminalError::SizeError(_) => String::from_str("failed to get terminal size"),
            TerminalError::InitError(_) => String::from_str("failed to initialize terminal"),
            TerminalError::IoError(_) => String::from_str("terminal I/O error"),
        }
    }

    /// What to tell the person at the terminal.
    pub fn user_friendly_message(&self) -> (text: String)
        ensures
            text@ == self.advice(),
    {
        match self {
            TerminalError::TooSmall { width, height, min_width, min_height } => {
                let mut text = String::from_str("Terminal window is too small (");
                push_decimal(&mut text, *width as u64);
                text.append("x");
                push_decimal(&mut text, *height as u64);
                text.append(").\nPlease resize to at least ");
                push_decimal(&mut text, *min_width as u64);
                text.append("x");
                push_decimal(&mut text, *min_height as u64);
                text.append(" characters.");
                text
            },
            TerminalError::NotATty => String::from_str(
                "This application must be run in a terminal.\nIt cannot work when output is redirected or piped.",
            ),
            TerminalError::RawModeError(_) => String::from_str(
                "Failed to initialize terminal raw mode.\nYou may need to run this in a proper terminal emulator.",
            ),
            TerminalError::SizeError(_) => String::from_str(
                "Cannot detect terminal size.\nMake sure you're running in a standard terminal.",
            ),
            _ => self.to_string(),
        }
    }
}

/// `reqwest::Error`, carried along as it comes.
#[verifier::external_type_specification]
#[verifier::external_body]
pub struct ExReqwestError(reqwest::Error);

/// `reqwest::StatusCode`, carried along as it comes.
#[verifier::external_type_specification]
#[verifier::external_body]
pub struct ExStatusCode(reqwest::StatusCode);

/// What can go wrong on the network.
#[derive(Debug)]
pub enum NetworkError {
    /// The HTTP client could not be built.
    ClientCreation(reqwest::Error),
    /// The name of the host did not resolve.
    DnsFailure { url: String, source: reqwest::Error },
    /// No answer came in time.
    Timeout { url: String, timeout_secs: u64 },
    /// The host refused the connection.
    ConnectionRefused { url: String },
    /// The server answered with an error status.
    HttpError { url: String, status: u16, source: reqwest::Error },
    /// The answer was no valid JSON.
    JsonParse { url: String, source: reqwest::Error },
    /// Anything else.
    Other(reqwest::Error),
}

/// The kinds of failure that a request is sorted into.
#[derive(Debug, Clone, Copy, PartialEq, Eq, Structural)]
pub enum FailureKind {
    Timeout,
    Dns,
    Refused,
    Http(u16),
    Json,
    Other,
}

/// What is known of a failed request.
pub struct FailureSigns {
    pub is_timeout: bool,
    pub is_connect: bool,
    pub is_status: bool,
    pub status: Option<u16>,
    pub is_decode: bool,
}

/// The kind of a failure with the given signs and message. A timeout
/// comes first; a failure to connect is a DNS failure or a refusal where
/// the message says so; an error status counts where the status is
/// known; then a failure to decode.
pub open spec fn kind_of_failure(signs: FailureSigns, message: Seq<char>) -> FailureKind {
    if signs.is_timeout {
        FailureKind::Timeout
    } else if signs.is_connect {
        if occurs_in("dns"@, message) || occurs_in("DNS"@, message) {
            FailureKind::Dns
        } else if occurs_in("Connection refused"@, message) || occurs_in("refused"@, message) {
            FailureKind::Refused
        } else {
            FailureKind::Other
        }
    } else if signs.is_status {
        match signs.status {
            Some(code) => FailureKind::Http(code),
            None => FailureKind::Other,
        }
    } else if signs.is_decode {
        FailureKind::Json
    } else {
        FailureKind::Other
    }
}

/// Sorts a failure by its signs and its message; see [`kind_of_failure`].
pub fn classify_failure(signs: &FailureSigns, message: &str) -> (kind: FailureKind)
    ensures
        kind == kind_of_failure(*signs, message@),
{
    if signs.is_timeout {
        FailureKind::Timeout
    } else if signs.is_connect {
        if str_contains(message, "dns") || str_contains(message, "DNS") {
            FailureKind::Dns
        } else if str_contains(message, "Connection refused") || str_contains(message, "refused") {
            FailureKind::Refused
        } else {
            FailureKind::Other
        }
    } else if signs.is_status {
        match signs.status {
            Some(code) => FailureKind::Http(code),
            None => FailureKind::Other,
        }
    } else if signs.is_decode {
        FailureKind::Json
    } else {
        FailureKind::Other
    }
}

/// `reqwest::Error::is_timeout`. Nothing is claimed of the answer.
#[verifier::external_body]
fn error_is_timeout(error: &reqwest::Error) -> bool {
    error.is_timeout()
}

/// `reqwest::Error::is_connect`. Nothing is claimed of the answer.
#[verifier::external_body]
fn error_is_connect(error: &reqwest::Error) -> bool {
    error.is_connect()
}

/// `reqwest::Error::is_status`. Nothing is claimed of the answer.
#[verifier::external_body]
fn error_is_status(error: &reqwest::Error) -> bool {
    error.is_status()
}

/// `reqwest::Error::status`. Nothing is claimed of the answer.
#[verifier::external_body]
fn error_status(error: &reqwest::Error) -> Option<reqwest::StatusCode> {
    error.status()
}

/// `StatusCode::as_u16`: the number of a status. Nothing is claimed of
/// the number.
#[verifier::external_body]
fn status_number(code: &reqwest::StatusCode) -> u16 {
    code.as_u16()
}

/// `reqwest::Error::is_decode`. Nothing is claimed of the answer.
#[verifier::external_body]
fn error_is_decode(error: &reqwest::Error) -> bool {
    error.is_decode()
}

/// `ToString::to_string` on a `reqwest::Error`: the text that the error
/// shows for itself. Nothing is claimed of the text.
#[verifier::external_body]
fn failure_text(error: &reqwest::Error) -> String {
    error.to_string()
}

/// A string of its own with the same characters.
fn owned(s: &str) -> (out: String)
    ensures
        out@ == s@,
{
    String::from_str(s)
}

impl NetworkError {
    /// Whether another try may help.
    pub open spec fn retryable(&self) -> bool {
        self is Timeout || self is ConnectionRefused || self is DnsFailure
    }

    /// The address that the request went to, where the error holds one.
    pub open spec fn address(&self) -> Option<Seq<char>> {
        match *self {
            NetworkError::DnsFailure { url, .. } => Some(url@),
            NetworkError::Timeout { url, .. } => Some(url@),
            NetworkError::ConnectionRefused { url } => Some(url@),
            NetworkError::HttpError { url, .. } => Some(url@),
            NetworkError::JsonParse { url, .. } => Some(url@),
            _ => None,
        }
    }

    /// Whether this is the error for a failure of the given kind of a
    /// request to `url` under a time limit of `timeout_secs` seconds.
    pub open spec fn made_of(
        &self,
        kind: FailureKind,
        error: reqwest::Error,
        url: Seq<char>,
        timeout_secs: u64,
    ) -> bool {
        match kind {
            FailureKind::Timeout => *self matches NetworkError::Timeout { url: u, timeout_secs: t }
                && u@ == url && t == timeout_secs,
            FailureKind::Dns => *self matches NetworkError::DnsFailure { url: u, source } && u@
                == url && source == error,
            FailureKind::Refused => *self matches NetworkError::ConnectionRefused { url: u } && u@
                == url,
            FailureKind::Http(code) => *self matches NetworkError::HttpError {
                url: u,
                status,
                source,
            } && u@ == url && status == code && source == error,
            FailureKind::Json => *self matches NetworkError::JsonParse { url: u, source } && u@
                == url && source == error,
            FailureKind::Other => *self matches NetworkError::Other(source) && source == error,
        }
    }

    /// The error for a failure of the given kind.
    pub fn of_kind(kind: FailureKind, error: reqwest::Error, url: &str, timeout_secs: u64) -> (out:
        NetworkError)
        ensures
            out.made_of(kind, error, url@, timeout_secs),
    {
        match kind {
            FailureKind::Timeout => NetworkError::Timeout { url: owned(url), timeout_secs },
            FailureKind::Dns => NetworkError::DnsFailure { url: owned(url), source: error },
            FailureKind::Refused => NetworkError::ConnectionRefused { url: owned(url) },
            FailureKind::Http(status) => NetworkError::HttpError {
                url: owned(url),
                status,
                source: error,
            },
            FailureKind::Json => NetworkError::JsonParse { url: owned(url), source: error },
            FailureKind::Other => NetworkError::Other(error),
        }
    }

    /// Sorts a failed request made to `url` with a time limit of
    /// `timeout_secs` seconds. Which kind comes out depends on what the
    /// failure tells of itself, as [`kind_of_failure`] says; whichever
    /// does, the error holds the address and, for a timeout, the limit.
    pub fn from_reqwest(error: reqwest::Error, url: &str, timeout_secs: u64) -> (out: NetworkError)
        ensures
            exists|signs: FailureSigns, message: Seq<char>| #[trigger]
                out.made_of(kind_of_failure(signs, message), error, url@, timeout_secs),
            !(out is ClientCreation),
            out.address() matches Some(address) ==> address == url@,
            out matches NetworkError::Timeout { timeout_secs: t, .. } ==> t == timeout_secs,
            out matches NetworkError::DnsFailure { source, .. } ==> source == error,
            out matches NetworkError::HttpError { source, .. } ==> source == error,
            out matches NetworkError::JsonParse { source, .. } ==> source == error,
            out matches NetworkError::Other(source) ==> source == error,
    {
        let signs = FailureSigns {
            is_timeout: error_is_timeout(&error),
            is_connect: error_is_connect(&error),
            is_status: error_is_status(&error),
            status: match error_status(&error) {
                Some(code) => Some(status_number(&code)),
                None => None,
            },
            is_decode: error_is_decode(&error),
        };
        let message = failure_text(&error);
        let kind = classify_failure(&signs, message.as_str());
        Self::of_kind(kind, error, url, timeout_secs)
    }

    /// Whether another try may succeed.
    pub fn is_retryable(&self) -> (yes: bool)
        ensures
            yes == self.retryable(),
    {
        match self {
            NetworkError::Timeout { .. }
            | NetworkError::ConnectionRefused { .. }
            | NetworkError::DnsFailure { .. } => true,
            _ => false,
        }
    }

    /// The error in one line, up to what the failure shows for itself,
    /// which ends the line of the kinds `ClientCreation` and `Other`.
    pub open spec fn line(&self) -> Seq<char> {
        match *self {
            NetworkError::ClientCreation(_) => "failed to create HTTP client: "@,
            NetworkError::DnsFailure { url, .. } => "DNS resolution failed for "@ + url@,
            NetworkError::Timeout { url, timeout_secs } => "connection timeout after "@ + decimal(
                timeout_secs as nat,
            ) + "s for "@ + url@,
            NetworkError::ConnectionRefused { url } => "connection refused for "@ + url@,
            NetworkError::HttpError { url, status, .. } => "HTTP request failed for "@ + url@
                + ": "@ + decimal(status as nat),
            NetworkError::JsonParse { url, .. } => "failed to parse JSON response from "@ + url@,
            NetworkError::Other(_) => "network error: "@,
        }
    }

    /// The error in one line.
    pub fn to_string(&self) -> (text: String)
        ensures
            !(self is Other) && !(self is ClientCreation) ==> text@ == self.line(),
            self is Other || self is ClientCreation ==> text@.len() >= self.line().len()
                && text@.take(self.line().len() as int) == self.line(),
    {
        match self {
            NetworkError::ClientCreation(e) => {
                let mut text = String::from_str("failed to create HTTP client: ");
                let shown = failure_text(e);
                text.append(shown.as_str());
                text
            },
            NetworkError::DnsFailure { url, .. } => {
                let mut text = String::from_str("DNS resolution failed for ");
                text.append(url.as_str());
                text
            },
            NetworkError::Timeout { url, timeout_secs } => {
                let mut text = String::from_str("connection timeout after ");
                push_decimal(&mut text, *timeout_secs);
                text.append("s for ");
                text.append(url.as_str());
                text
            },
            NetworkError::ConnectionRefused { url } => {
                let mut text = String::from_str("connection refused for ");
                text.append(url.as_str());
                text
            },
            NetworkError::HttpError { url, status, .. } => {
                let mut text = String::from_str("HTTP request failed for ");
                text.append(url.as_str());
                text.append(": ");
                push_decimal(&mut text, *status as u64);
                text
            },
            NetworkError::JsonParse { url, .. } => {
                let mut text = String::from_str("failed to parse JSON response from ");
                text.append(url.as_str());
                text
            },
            NetworkError::Other(e) => {
                let mut text = String::from_str("network error: ");
                let shown = failure_text(e);
                text.append(shown.as_str());
                text
            },
        }
    }

    /// What to tell the person at the terminal, but for an error of the
    /// kind `Other`, whose text ends in what the failure shows for itself.
    pub open spec fn advice(&self) -> Seq<char> {
        match *self {
            NetworkError::DnsFailure { url, .. } => "Cannot reach "@ + url@
                + ". Check your internet connection or DNS settings."@,
            NetworkError::Timeout { url, timeout_secs } => "Request to "@ + url@
                + " timed out after "@ + decimal(timeout_secs as nat)
                + "s. Check your internet connection."@,
            NetworkError::ConnectionRefused { url } => "Cannot connect to "@ + url@
                + ". The service may be down."@,
            NetworkError::HttpError { url, status, .. } => "Server error from "@ + url@ + ": HTTP "@
                + decimal(status as nat),
            NetworkError::JsonParse { url, .. } => "Received invalid data from "@ + url@,
            NetworkError::ClientCreation(_) => "Failed to initialize HTTP client"@,
            NetworkError::Other(_) => "Network error: "@,
        }
    }

    /// What to tell the person at the terminal.
    pub fn user_friendly_message(&self) -> (text: String)
        ensures
            !(self is Other) ==> text@ == self.advice(),
            self is Other ==> text@.len() >= self.advice().len() && text@.take(
                self.advice().len() as int,
            ) == self.advice(),
    {
        match self {
            NetworkError::DnsFailure { url, .. } => {
                let mut text = String::from_str("Cannot reach ");
                text.append(url.as_str());
                text.append(". Check your internet connection or DNS settings.");
                text
            },
            NetworkError::Timeout { url, timeout_secs } => {
                let mut text = String::from_str("Request to ");
                text.append(url.as_str());
                text.append(" timed out after ");
                push_decimal(&mut text, *timeout_secs);
                text.append("s. Check your internet connection.");
                text
            },
            NetworkError::ConnectionRefused { url } => {
                let mut text = String::from_str("Cannot connect to ");
                text.append(url.as_str());
                text.append(". The service may be down.");
                text
            },
            NetworkError::HttpError { url, status, .. } => {
                let mut text = String::from_str("Server error from ");
                text.append(url.as_str());
                text.append(": HTTP ");
                push_decimal(&mut text, *status as u64);
                text
            },
            NetworkError::JsonParse { url, .. } => {
                let mut text = String::from_str("Received invalid data from ");
                text.append(url.as_str());
                text
            },
            NetworkError::ClientCreation(_) => String::from_str("Failed to initialize HTTP client"),
            NetworkError::Other(e) => {
                let mut text = String::from_str("Network error: ");
                let shown = failure_text(e);
                text.append(shown.as_str());
                text
            },
        }
    }
}

/// What can go wrong when the location is looked up.
#[derive(Debug)]
pub enum GeolocationError {
    /// The service could not be reached.
    Unreachable(NetworkError),
    /// The service's answer made no sense.
    ParseError(String),
    /// Every try failed.
    RetriesExhausted { attempts: u32 },
}

impl GeolocationError {
    /// The error in one line.
    pub open spec fn line(&self) -> Seq<char> {
        match *self {
            GeolocationError::Unreachable(_) => "cannot reach geolocation service"@,
            GeolocationError::ParseError(detail) => "failed to parse location data: "@ + detail@,
            GeolocationError::RetriesExhausted { attempts } => "failed after "@ + decimal(
                attempts as nat,
            ) + " retry attempts"@,
        }
    }

    /// The error in one line.
    pub fn to_string(&self) -> (text: String)
        ensures
            text@ == self.line(),
    {
        match self {
            GeolocationError::Unreachable(_) => String::from_str("cannot reach geolocation service"),
            GeolocationError::ParseError(detail) => {
                let mut text = String::from_str("failed to parse location data: ");
                text.append(detail.as_str());
                text
            },
            GeolocationError::RetriesExhausted { attempts } => {
                let mut text = String::from_str("failed after ");
                push_decimal(&mut text, *attempts as u64);
                text.append(" retry attempts");
                text
            },
        }
    }

    /// What to tell the person at the terminal.
    pub open spec fn advice(&self) -> Seq<char> {
        match *self {
            GeolocationError::Unreachable(net) => match net {
                NetworkError::Timeout { timeout_secs, .. } => "Location detection timed out after "@
                    + decimal(timeout_secs as nat)
                    + "s. Check your internet connection.\nUsing configured/default location."@,
                NetworkError::DnsFailure {
                    ..
                } => "Cannot reach location service. Check your DNS settings.\nUsing configured/default location."@,
                NetworkError::ConnectionRefused {
                    ..
                } => "Location service is unavailable. Try again later.\nUsing configured/default location."@,
                NetworkError::HttpError { status, .. } => "Location service returned error (HTTP "@
                    + decimal(status as nat) + ").\nUsing configured/default location."@,
                NetworkError::JsonParse {
                    ..
                } => "Received invalid data from location service.\nUsing configured/default location."@,
                NetworkError::ClientCreation(
                    _,
                ) => "Failed to initialize network client.\nUsing configured/default location."@,
                NetworkError::Other(
                    _,
                ) => "Cannot auto-detect location. Check your internet connection.\nUsing configured/default location."@,
            },
            GeolocationError::ParseError(
                _,
            ) => "Received invalid location data.\nUsing configured/default location."@,
            GeolocationError::RetriesExhausted { attempts } => "Failed to detect location after "@
                + decimal(attempts as nat) + " attempts.\nUsing configured/default location."@,
        }
    }

    /// What to tell the person at the terminal.
    pub fn user_friendly_message(&self) -> (text: String)
        ensures
            text@ == self.advice(),
    {
        match self {
            GeolocationError::Unreachable(net) => match net {
                NetworkError::Timeout { timeout_secs, .. } => {
                    let mut text = String::from_str("Location detection timed out after ");
                    push_decimal(&mut text, *timeout_secs);
                    text.append(
                        "s. Check your internet connection.\nUsing configured/default location.",
                    );
                    text
                },
                NetworkError::DnsFailure { .. } => String::from_str(
                    "Cannot reach location service. Check your DNS settings.\nUsing configured/default location.",
                ),
                NetworkError::ConnectionRefused { .. } => String::from_str(
                    "Location service is unavailable. Try again later.\nUsing configured/default location.",
                ),
                NetworkError::HttpError { status, .. } => {
                    let mut text = String::from_str("Location service returned error (HTTP ");
                    push_decimal(&mut text, *status as u64);
                    text.append(").\nUsing configured/default location.");
                    text
                },
                NetworkError::JsonParse { .. } => String::from_str(
                    "Received invalid data from location service.\nUsing configured/default location.",
                ),
                NetworkError::ClientCreation(_) => String::from_str(
                    "Failed to initialize network client.\nUsing configured/default location.",
                ),
                NetworkError::Other(_) => String::from_str(
                    "Cannot auto-detect location. Check your internet connection.\nUsing configured/default location.",
                ),
            },
            GeolocationError::ParseError(_) => String::from_str(
                "Received invalid location data.\nUsing configured/default location.",
            ),
            GeolocationError::RetriesExhausted { attempts } => {
                let mut text = String::from_str("Failed to detect location after ");
                push_decimal(&mut text, *attempts as u64);
                text.append(" attempts.\nUsing configured/default location.");
                text
            },
        }
    }
}

/// `toml::de::Error`, carried along as it comes.
#[verifier::external_type_specification]
#[verifier::external_body]
pub struct ExTomlError(toml::de::Error);

/// What can go wrong with the configuration. The angles are millionths
/// of a degree.
#[derive(Debug)]
pub enum ConfigError {
    /// The file could not be read.
    ReadError { path: String, source: std::io::Error },
    /// The file is no valid TOML.
    ParseError(toml::de::Error),
    /// No directory for configuration files is known.
    NoConfigDir,
    /// The latitude lies beyond a pole.
    InvalidLatitude(i64),
    /// The longitude lies beyond half a turn.
    InvalidLongitude(i64),
}

impl ConfigError {
    /// The name of the kind of error.
    pub open spec fn kind_name(&self) -> Seq<char> {
        match *self {
            ConfigError::ReadError { .. } => "ReadError"@,
            ConfigError::ParseError(_) => "ParseError"@,
            ConfigError::NoConfigDir => "NoConfigDir"@,
            ConfigError::InvalidLatitude(_) => "InvalidLatitude"@,
            ConfigError::InvalidLongitude(_) => "InvalidLongitude"@,
        }
    }

    /// The name of the kind of error.
    pub fn kind(&self) -> (name: &'static str)
        ensures
            name@ == self.kind_name(),
    {
        match self {
            ConfigError::ReadError { .. } => "ReadError",
            ConfigError::ParseError(_) => "ParseError",
            ConfigError::NoConfigDir => "NoConfigDir",
            ConfigError::InvalidLatitude(_) => "InvalidLatitude",
            ConfigError::InvalidLongitude(_) => "InvalidLongitude",
        }
    }

    /// The error in one line.
    pub open spec fn line(&self) -> Seq<char> {
        match *self {
            ConfigError::ReadError { path, .. } => "failed to read config file at "@ + path@,
            ConfigError::ParseError(_) => "invalid TOML syntax in config file"@,
            ConfigError::NoConfigDir =>
                "could not determine config directory (check $XDG_CONFIG_HOME or $HOME)"@,
            ConfigError::InvalidLatitude(latitude) => "invalid latitude: "@ + shortest(latitude)
                + " (must be between -90 and 90)"@,
            ConfigError::InvalidLongitude(longitude) => "invalid longitude: "@ + shortest(
                longitude,
            ) + " (must be between -180 and 180)"@,
        }
    }

    /// The error in one line.
    pub fn to_string(&self) -> (text: String)
        ensures
            text@ == self.line(),
    {
        match self {
            ConfigError::ReadError { path, .. } => {
                let mut text = String::from_str("failed to read config file at ");
                text.append(path.as_str());
                text
            },
            ConfigError::ParseError(_) => String::from_str("invalid TOML syntax in config file"),
            ConfigError::NoConfigDir => String::from_str(
                "could not determine config directory (check $XDG_CONFIG_HOME or $HOME)",
            ),
            ConfigError::InvalidLatitude(latitude) => {
                let mut text = String::from_str("invalid latitude: ");
                push_shortest(&mut text, *latitude);
                text.append(" (must be between -90 and 90)");
                text
            },
            ConfigError::InvalidLongitude(longitude) => {
                let mut text = String::from_str("invalid longitude: ");
                push_shortest(&mut text, *longitude);
                text.append(" (must be between -180 and 180)");
                text
            },
        }
    }
}

/// Anything that can go wrong in the program.
#[derive(Debug)]
pub enum WeatherError {
    Network(NetworkError),
    Config(ConfigError),
    Terminal(TerminalError),
    Geolocation(GeolocationError),
}

impl From<NetworkError> for WeatherError {
    fn from(error: NetworkError) -> (wrapped: WeatherError) {
        WeatherError::Network(error)
    }
}

impl vstd::std_specs::convert::FromSpecImpl<NetworkError> for WeatherError {
    open spec fn obeys_from_spec() -> bool {
        true
    }

    open spec fn from_spec(error: NetworkError) -> WeatherError {
        WeatherError::Network(error)
    }
}

impl From<ConfigError> for WeatherError {
    fn from(error: ConfigError) -> (wrapped: WeatherError) {
        WeatherError::Config(error)
    }
}

impl vstd::std_specs::convert::FromSpecImpl<ConfigError> for WeatherError {
    open spec fn obeys_from_spec() -> bool {
        true
    }

    open spec fn from_spec(error: ConfigError) -> WeatherError {
        WeatherError::Config(error)
    }
}

impl From<TerminalError> for WeatherError {
    fn from(error: TerminalError) -> (wrapped: WeatherError) {
        WeatherError::Terminal(error)
    }
}

impl vstd::std_specs::convert::FromSpecImpl<TerminalError> for WeatherError {
    open spec fn obeys_from_spec() -> bool {
        true
    }

    open spec fn from_spec(error: TerminalError) -> WeatherError {
        WeatherError::Terminal(error)
    }
}

impl From<GeolocationError> for WeatherError {
    fn from(error: GeolocationError) -> (wrapped: WeatherError) {
        WeatherError::Geolocation(error)
    }
}

impl vstd::std_specs::convert::FromSpecImpl<GeolocationError> for WeatherError {
    open spec fn obeys_from_spec() -> bool {
        true
    }

    open spec fn from_spec(error: GeolocationError) -> WeatherError {
        WeatherError::Geolocation(error)
    }
}

impl WeatherError {
    /// The error in one line: the line of the error that it holds.
    pub fn to_string(&self) -> (text: String)
        ensures
            self matches WeatherError::Network(e) ==> (!(e is Other) && !(e is ClientCreation)
                ==> text@ == e.line()) && text@.len() >= e.line().len() && text@.take(
                e.line().len() as int,
            ) == e.line(),
            self matches WeatherError::Config(e) ==> text@ == e.line(),
            self matches WeatherError::Terminal(e) ==> text@ == e.line(),
            self matches WeatherError::Geolocation(e) ==> text@ == e.line(),
    {
        match self {
            WeatherError::Network(e) => e.to_string(),
            WeatherError::Config(e) => e.to_string(),
            WeatherError::Terminal(e) => e.to_string(),
            WeatherError::Geolocation(e) => e.to_string(),
        }
    }
}

} // verus!
