use bootstrap::config::{Config, ReadOutcome};
use bootstrap::context::Context;
use bootstrap::driver::{run, CONFIG_FILE};
use bootstrap::error::Error;
use bootstrap::program::entrypoint;

#[test]
fn entrypoint_does_not_error_on_default_config() -> Result<(), Error> {
    let context = Context::default()?;
    entrypoint(context)
}

#[test]
fn entrypoint_does_not_error_on_another_config() {
    let context = Context::new(Config::new(String::from("example.org"))).unwrap();
    assert!(entrypoint(context).is_ok());
}

#[test]
fn the_configuration_file_is_config_json() {
    assert_eq!(CONFIG_FILE, "config.json");
}

#[test]
fn run_on_a_parsed_file_exits_with_zero_and_reports_nothing() {
    let exit = run(ReadOutcome::Parsed(Config::default()));
    assert_eq!(exit.status, 0);
    assert_eq!(exit.diagnostic, None);
}

#[test]
fn run_on_an_absent_file_exits_with_one_and_reports_the_path() {
    let exit = run(ReadOutcome::NotOpened);
    assert_eq!(exit.status, 1);
    let text = exit.diagnostic.unwrap();
    assert_eq!(text, "Error opening \"config.json\" for reading the Config");
    assert!(text.contains(CONFIG_FILE));
}

#[test]
fn run_on_unparsed_contents_exits_with_one_and_reports_the_path() {
    let exit = run(ReadOutcome::NotParsed);
    assert_eq!(exit.status, 1);
    assert_eq!(
        exit.diagnostic,
        Some(String::from("Error parsing the Config from \"config.json\""))
    );
}
