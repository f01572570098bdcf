use deposits::config::{Config, ConfigError, Variable};

fn ok(value: &str) -> Result<String, String> {
    Ok(String::from(value))
}

fn missing() -> Result<String, String> {
    Err(String::from("environment variable not found"))
}

#[test]
fn from_env_decodes_the_list_of_input_files() {
    let config = Config::from_env(
        ok("host=localhost"),
        ok("log.txt"),
        ok("customers.json"),
        ok(r#"["transactions-1.json", "transactions-2.json"]"#),
    );
    assert_eq!(
        config,
        Ok(Config {
            db_connection_string: String::from("host=localhost"),
            log_file: String::from("log.txt"),
            known_customers: String::from("customers.json"),
            input_data: vec![
                String::from("transactions-1.json"),
                String::from("transactions-2.json"),
            ],
        })
    );
}

#[test]
fn from_env_accepts_an_empty_list_and_escapes() {
    let empty = Config::from_env(ok("db"), ok("log"), ok("known"), ok(" [ ] ")).unwrap();
    assert_eq!(empty.input_data, Vec::<String>::new());
    let escaped = Config::from_env(ok("db"), ok("log"), ok("known"), ok(r#"["a\"bA"]"#));
    assert_eq!(escaped.unwrap().input_data, vec![String::from("a\"bA")]);
}

#[test]
fn from_env_rejects_a_list_that_is_no_json_array_of_strings() {
    for text in ["", "not json", "[1, 2]", r#"{"a": "b"}"#, r#"["a.json""#, r#"["a"] x"#, "\"a\""] {
        match Config::from_env(ok("db"), ok("log"), ok("known"), ok(text)) {
            Err(ConfigError::InputData { message }) => assert!(!message.is_empty()),
            other => panic!("{:?} was taken for a list: {:?}", text, other),
        }
    }
}

#[test]
fn from_env_reports_the_first_variable_without_a_value() {
    let all = Config::from_env(missing(), missing(), missing(), missing());
    assert_eq!(
        all,
        Err(ConfigError::Unreadable {
            variable: Variable::DbConnectionString,
            message: String::from("environment variable not found"),
        })
    );
    let log = Config::from_env(ok("db"), missing(), ok("known"), missing());
    assert_eq!(
        log,
        Err(ConfigError::Unreadable {
            variable: Variable::LogFile,
            message: String::from("environment variable not found"),
        })
    );
    let known = Config::from_env(ok("db"), ok("log"), missing(), ok("nonsense"));
    assert_eq!(
        known,
        Err(ConfigError::Unreadable {
            variable: Variable::KnownCustomers,
            message: String::from("environment variable not found"),
        })
    );
    let input = Config::from_env(ok("db"), ok("log"), ok("known"), missing());
    assert_eq!(
        input,
        Err(ConfigError::Unreadable {
            variable: Variable::InputData,
            message: String::from("environment variable not found"),
        })
    );
}

#[test]
fn a_missing_variable_comes_before_a_list_that_does_not_decode() {
    let config = Config::from_env(ok("db"), missing(), ok("known"), ok("not json"));
    assert!(matches!(
        config,
        Err(ConfigError::Unreadable { variable: Variable::LogFile, .. })
    ));
}

#[test]
fn assemble_takes_the_decoded_list_as_it_is() {
    let config = Config::assemble(
        ok("db"),
        ok("log"),
        ok("known"),
        Ok(Ok(vec![String::from("a.json")])),
    );
    assert_eq!(config.unwrap().input_data, vec![String::from("a.json")]);
    let failed =
        Config::assemble(ok("db"), ok("log"), ok("known"), Ok(Err(String::from("expected `]`"))));
    assert_eq!(failed, Err(ConfigError::InputData { message: String::from("expected `]`") }));
}

#[test]
fn config_errors_show_their_message() {
    let unreadable = ConfigError::Unreadable {
        variable: Variable::LogFile,
        message: String::from("environment variable not found"),
    };
    assert_eq!(unreadable.to_string(), "environment variable not found");
    let input = ConfigError::InputData { message: String::from("EOF while parsing a list") };
    assert_eq!(input.to_string(), "EOF while parsing a list");
}

#[test]
fn variables_have_their_names() {
    assert_eq!(Variable::DbConnectionString.name(), "DB_CONNECTION_STRING");
    assert_eq!(Variable::LogFile.name(), "LOG_FILE");
    assert_eq!(Variable::KnownCustomers.name(), "KNOWN_CUSTOMERS");
    assert_eq!(Variable::InputData.name(), "INPUT_DATA");
}
