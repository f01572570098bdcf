//! The configuration that every workflow is run with, and how it is put
//! together from the values of four environment variables.

use vstd::prelude::*;
use vstd::string::*;
use crate::models::strings_view;

verus! {

/// Where the store is, and which files to read.
#[derive(Debug, PartialEq, Eq)]
pub struct Config {
    pub db_connection_string: String,
    pub log_file: String,
    pub known_customers: String,
    pub input_data: Vec<String>,
}

/// What a configuration holds.
pub struct ConfigView {
    pub db_connection_string: Seq<char>,
    pub log_file: Seq<char>,
    pub known_customers: Seq<char>,
    pub input_data: Seq<Seq<char>>,
}

impl View for Config {
    type V = ConfigView;

    open spec fn view(&self) -> ConfigView {
        ConfigView {
            db_connection_string: self.db_connection_string@,
            log_file: self.log_file@,
            known_customers: self.known_customers@,
            input_data: strings_view(self.input_data@),
        }
    }
}

/// The environment variables that make up a configuration, in the order in
/// which they are looked at.
#[derive(Debug, Clone, Copy, PartialEq, Eq, Structural)]
pub enum Variable {
    DbConnectionString,
    LogFile,
    KnownCustomers,
    InputData,
}

impl Variable {
    /// The name of the variable in the environment.
    pub open spec fn spec_name(self) -> Seq<char> {
        match self {
            Variable::DbConnectionString => "DB_CONNECTION_STRING"@,
            Variable::LogFile => "LOG_FILE"@,
            Variable::KnownCustomers => "KNOWN_CUSTOMERS"@,
            Variable::InputData => "INPUT_DATA"@,
        }
    }

    /// The name of the variable in the environment.
    pub fn name(self) -> (name: &'static str)
        ensures
            name@ == self.spec_name(),
    {
        match self {
            Variable::DbConnectionString => "DB_CONNECTION_STRING",
            Variable::LogFile => "LOG_FILE",
            Variable::KnownCustomers => "KNOWN_CUSTOMERS",
            Variable::InputData => "INPUT_DATA",
        }
    }
}

/// Why there is no configuration.
#[derive(Debug, PartialEq, Eq)]
pub enum ConfigError {
    /// A variable could not be read; `message` says why.
    Unreadable { variable: Variable, message: String },
    /// The list of input files is not a JSON array of strings; `message`
    /// says where it goes wrong.
    InputData { message: String },
}

/// What a configuration error holds.
pub enum ConfigErrorView {
    Unreadable { variable: Variable, message: Seq<char> },
    InputData { message: Seq<char> },
}

impl View for ConfigError {
    type V = ConfigErrorView;

    open spec fn view(&self) -> ConfigErrorView {
        match self {
            ConfigError::Unreadable { variable, message } => ConfigErrorView::Unreadable {
                variable: *variable,
                message: message@,
            },
            ConfigError::InputData { message } => ConfigErrorView::InputData {
                message: message@,
            },
        }
    }
}

impl ConfigError {
    /// The message, as it is logged.
    pub fn to_string(&self) -> (message: String)
        ensures
            message@ == (match self@ {
                ConfigErrorView::Unreadable { message, .. } => message,
                ConfigErrorView::InputData { message } => message,
            }),
    {
        match self {
            ConfigError::Unreadable { message, .. } => message.clone(),
            ConfigError::InputData { message } => message.clone(),
        }
    }
}

/// The error of `serde_json`, of which nothing is known but its message.
#[verifier::external_type_specification]
#[verifier::external_body]
pub struct ExJsonError(serde_json::Error);

/// The strings of the JSON array that `text` is, in order; nothing where
/// `text` is not a JSON array of strings.
pub uninterp spec fn json_string_list(text: Seq<char>) -> Option<Seq<Seq<char>>>;

/// Decodes `text` as a JSON array of strings with `serde_json::from_str`. The
/// result is a function of the text alone, which `json_string_list` names:
/// the decoded strings where the call succeeds, nothing where it fails.
#[verifier::external_body]
fn parse_string_list(text: &str) -> (parsed: Result<Vec<String>, serde_json::Error>)
    ensures
        parsed matches Ok(list) ==> json_string_list(text@) == Some(strings_view(list@)),
        parsed is Err ==> json_string_list(text@) is None,
{
    serde_json::from_str::<Vec<String>>(text)
}

/// The message of a decoding error, as `serde_json::Error` displays it.
/// Nothing is claimed of the text.
#[verifier::external_body]
fn json_error_message(error: &serde_json::Error) -> (message: String) {
    error.to_string()
}

/// The view of the value of a variable, or of the reason why it has none.
pub open spec fn read_view(read: Result<String, String>) -> Result<Seq<char>, Seq<char>> {
    match read {
        Ok(value) => Ok(value@),
        Err(message) => Err(message@),
    }
}

/// The view of a decoded list of input files, or of the reason why there is
/// none.
pub open spec fn list_view(decoded: Result<Vec<String>, String>) -> Result<
    Seq<Seq<char>>,
    Seq<char>,
> {
    match decoded {
        Ok(list) => Ok(strings_view(list@)),
        Err(message) => Err(message@),
    }
}

/// The configuration made of the values of the four variables, the last of
/// them already decoded. The first variable without a value, in the order of
/// `Variable`, decides the error; a list that could not be decoded comes
/// after all four.
pub open spec fn assembled(
    db_connection_string: Result<Seq<char>, Seq<char>>,
    log_file: Result<Seq<char>, Seq<char>>,
    known_customers: Result<Seq<char>, Seq<char>>,
    input_data: Result<Result<Seq<Seq<char>>, Seq<char>>, Seq<char>>,
) -> Result<ConfigView, ConfigErrorView> {
    match (db_connection_string, log_file, known_customers, input_data) {
        (Err(message), _, _, _) => Err(
            ConfigErrorView::Unreadable { variable: Variable::DbConnectionString, message },
        ),
        (Ok(_), Err(message), _, _) => Err(
            ConfigErrorView::Unreadable { variable: Variable::LogFile, message },
        ),
        (Ok(_), Ok(_), Err(message), _) => Err(
            ConfigErrorView::Unreadable { variable: Variable::KnownCustomers, message },
        ),
        (Ok(_), Ok(_), Ok(_), Err(message)) => Err(
            ConfigErrorView::Unreadable { variable: Variable::InputData, message },
        ),
        (Ok(_), Ok(_), Ok(_), Ok(Err(message))) => Err(ConfigErrorView::InputData { message }),
        (Ok(db_connection_string), Ok(log_file), Ok(known_customers), Ok(Ok(input_data))) => Ok(
            ConfigView { db_connection_string, log_file, known_customers, input_data },
        ),
    }
}

/// What became of the variable that lists the input files: unreadable, or
/// read and then decoded or not.
pub open spec fn decoded_view(input_data: Result<Result<Vec<String>, String>, String>) -> Result<
    Result<Seq<Seq<char>>, Seq<char>>,
    Seq<char>,
> {
    match input_data {
        Ok(decoded) => Ok(list_view(decoded)),
        Err(message) => Err(message@),
    }
}

/// The view of a configuration, or of the reason why there is none.
pub open spec fn config_outcome_view(outcome: Result<Config, ConfigError>) -> Result<
    ConfigView,
    ConfigErrorView,
> {
    match outcome {
        Ok(config) => Ok(config@),
        Err(error) => Err(error@),
    }
}

/// What becomes of the variable that lists the input files when its value is
/// decoded as a JSON array of strings, with `message` for a value that is
/// none.
pub open spec fn decoded_as(input_data: Result<Seq<char>, Seq<char>>, message: Seq<char>) -> Result<
    Result<Seq<Seq<char>>, Seq<char>>,
    Seq<char>,
> {
    match input_data {
        Ok(text) => Ok(
            match json_string_list(text) {
                Some(list) => Ok(list),
                None => Err(message),
            },
        ),
        Err(unreadable) => Err(unreadable),
    }
}

impl Config {
    /// Puts a configuration together from the values of the variables, the
    /// list of input files already decoded.
    pub fn assemble(
        db_connection_string: Result<String, String>,
        log_file: Result<String, String>,
        known_customers: Result<String, String>,
        input_data: Result<Result<Vec<String>, String>, String>,
    ) -> (config: Result<Config, ConfigError>)
        ensures
            config_outcome_view(config) == assembled(
                read_view(db_connection_string),
                read_view(log_file),
                read_view(known_customers),
                decoded_view(input_data),
            ),
    {
        let db_connection_string = match db_connection_string {
            Ok(value) => value,
            Err(message) => {
                return Err(
                    ConfigError::Unreadable { variable: Variable::DbConnectionString, message },
                );
            },
        };
        let log_file = match log_file {
            Ok(value) => value,
            Err(message) => {
                return Err(ConfigError::Unreadable { variable: Variable::LogFile, message });
            },
        };
        let known_customers = match known_customers {
            Ok(value) => value,
            Err(message) => {
                return Err(
                    ConfigError::Unreadable { variable: Variable::KnownCustomers, message },
                );
            },
        };
        let decoded = match input_data {
            Ok(decoded) => decoded,
            Err(message) => {
                return Err(ConfigError::Unreadable { variable: Variable::InputData, message });
            },
        };
        match decoded {
            Ok(input_data) => Ok(
                Config { db_connection_string, log_file, known_customers, input_data },
            ),
            Err(message) => Err(ConfigError::InputData { message }),
        }
    }

    /// The configuration that the environment describes. Each argument is
    /// what reading one variable gave: its value, or the reason why it has
    /// none. The value of the last is decoded as a JSON array of strings.
    ///
    /// The outcome is that of `assemble` on the same values and on the
    /// decoded list, whatever the message of a list that does not decode.
    pub fn from_env(
        db_connection_string: Result<String, String>,
        log_file: Result<String, String>,
        known_customers: Result<String, String>,
        input_data: Result<String, String>,
    ) -> (config: Result<Config, ConfigError>)
        ensures
            exists|message: Seq<char>|
                config_outcome_view(config) == assembled(
                    read_view(db_connection_string),
                    read_view(log_file),
                    read_view(known_customers),
                    #[trigger] decoded_as(read_view(input_data), message),
                ),
    {
        let decoded: Result<Result<Vec<String>, String>, String> = match input_data {
            Ok(text) => {
                match parse_string_list(text.as_str()) {
                    Ok(list) => Ok(Ok(list)),
                    Err(error) => Ok(Err(json_error_message(&error))),
                }
            },
            Err(unreadable) => Err(unreadable),
        };
        let ghost wanted = decoded_view(decoded);
        let ghost message = match wanted {
            Ok(Err(m)) => m,
            _ => Seq::<char>::empty(),
        };
        let config = Config::assemble(db_connection_string, log_file, known_customers, decoded);
        assert(wanted == decoded_as(read_view(input_data), message));
        config
    }
}

} // verus!
