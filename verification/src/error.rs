//! The library's error taxonomy: configuration errors, fetch errors, and
//! schema errors (a required field missing from the forecast payload).
//! All errors bubble unrecovered to the top-level driver, which prints a
//! message and exits.

use vstd::prelude::*;
use vstd::string::*;

verus! {

/// The required payload fields that the summarizer may find missing.
#[derive(Clone, Copy, Debug, PartialEq, Eq, Structural)]
pub enum Field {
    Currently,
    CurrentIcon,
    CurrentSummary,
    CurrentTemperature,
    CurrentPressure,
    Daily,
    DailyIcon,
    DailySummary,
}

/// The dotted path naming each required payload field.
pub open spec fn field_name_seq(f: Field) -> Seq<char> {
    match f {
        Field::Currently => "currently"@,
        Field::CurrentIcon => "currently.icon"@,
        Field::CurrentSummary => "currently.summary"@,
        Field::CurrentTemperature => "currently.temperature"@,
        Field::CurrentPressure => "currently.pressure"@,
        Field::Daily => "daily"@,
        Field::DailyIcon => "daily.icon"@,
        Field::DailySummary => "daily.summary"@,
    }
}

impl Field {
    /// The dotted path naming this field in the payload.
    pub fn name(self) -> (r: &'static str)
        ensures
            r@ == field_name_seq(self),
    {
        match self {
            Field::Currently => "currently",
            Field::CurrentIcon => "currently.icon",
            Field::CurrentSummary => "currently.summary",
            Field::CurrentTemperature => "currently.temperature",
            Field::CurrentPressure => "currently.pressure",
            Field::Daily => "daily",
            Field::DailyIcon => "daily.icon",
            Field::DailySummary => "daily.summary",
        }
    }
}

/// Errors in loading or resolving the user configuration.  `NotFound`,
/// `Io` and `Parse` are reported by the unverified shell that reads the
/// configuration file; the rest come from the resolution logic here.
#[derive(Clone, Debug, PartialEq, Eq)]
pub enum ConfigError {
    NotFound,
    Io(String),
    Parse(String),
    MissingToken,
    EmptyToken,
    MissingCoordinates,
    InvalidCoordinate,
    InvalidUnit,
}

/// Errors in retrieving the raw forecast data, reported by the unverified
/// shell that performs the network call or file read.
#[derive(Clone, Debug, PartialEq, Eq)]
pub enum FetchError {
    Io(String),
    Status(u16),
}

/// The library's top-level error.
#[derive(Clone, Debug, PartialEq, Eq)]
pub enum Error {
    Config(ConfigError),
    Fetch(FetchError),
    MissingField(Field),
}

/// The message shown for each configuration error.
pub open spec fn config_error_message_seq(e: ConfigError) -> Seq<char> {
    match e {
        ConfigError::NotFound => "Configuration file not found."@,
        ConfigError::Io(s) => "configuration read error: "@ + s@,
        ConfigError::Parse(s) => "configuration parse error: "@ + s@,
        ConfigError::MissingToken => "configuration is missing the API token"@,
        ConfigError::EmptyToken => "the API token must not be empty"@,
        ConfigError::MissingCoordinates => "configuration is missing the coordinates"@,
        ConfigError::InvalidCoordinate => "coordinates must be decimal degrees"@,
        ConfigError::InvalidUnit => "unknown unit code"@,
    }
}

impl ConfigError {
    /// Render this error as a message for the terminal.
    pub fn message(&self) -> (r: String)
        ensures
            r@ == config_error_message_seq(*self),
    {
        match self {
            ConfigError::NotFound => "Configuration file not found.".to_owned(),
            ConfigError::Io(s) => {
                let mut m: String = "configuration read error: ".to_owned();
                m.append(s.as_str());
                m
            },
            ConfigError::Parse(s) => {
                let mut m: String = "configuration parse error: ".to_owned();
                m.append(s.as_str());
                m
            },
            ConfigError::MissingToken => "configuration is missing the API token".to_owned(),
            ConfigError::EmptyToken => "the API token must not be empty".to_owned(),
            ConfigError::MissingCoordinates => {
                "configuration is missing the coordinates".to_owned()
            },
            ConfigError::InvalidCoordinate => "coordinates must be decimal degrees".to_owned(),
            ConfigError::InvalidUnit => "unknown unit code".to_owned(),
        }
    }
}

/// The message shown for each fetch error.
pub open spec fn fetch_error_message_seq(e: FetchError) -> Seq<char> {
    match e {
        FetchError::Io(s) => "fetch error: "@ + s@,
        FetchError::Status(_) => "forecast service returned an unexpected status"@,
    }
}

impl FetchError {
    /// Render this error as a message for the terminal.
    pub fn message(&self) -> (r: String)
        ensures
            r@ == fetch_error_message_seq(*self),
    {
        match self {
            FetchError::Io(s) => {
                let mut m: String = "fetch error: ".to_owned();
                m.append(s.as_str());
                m
            },
            FetchError::Status(_) => {
                "forecast service returned an unexpected status".to_owned()
            },
        }
    }
}

/// The message shown for each top-level error.
pub open spec fn error_message_seq(e: Error) -> Seq<char> {
    match e {
        Error::Config(c) => config_error_message_seq(c),
        Error::Fetch(f) => fetch_error_message_seq(f),
        Error::MissingField(f) => "missing field: "@ + field_name_seq(f),
    }
}

impl Error {
    /// Render this error as a message for the terminal.
    pub fn message(&self) -> (r: String)
        ensures
            r@ == error_message_seq(*self),
    {
        match self {
            Error::Config(c) => c.message(),
            Error::Fetch(f) => f.message(),
            Error::MissingField(f) => {
                let mut m: String = "missing field: ".to_owned();
                m.append(f.name());
                m
            },
        }
    }
}

} // verus!
