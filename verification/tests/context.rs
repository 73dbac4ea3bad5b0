use bootstrap::config::{Config, ReadOutcome};
use bootstrap::context::{setup, Context};
use bootstrap::error::Error;

#[test]
fn new_context_has_a_sane_config() -> Result<(), Error> {
    let context = Context::default()?;
    assert_eq!(Config::default(), *context.config());
    Ok(())
}

#[test]
fn default_context_never_fails() {
    assert!(Context::default().is_ok());
}

#[test]
fn new_wraps_the_given_config() {
    let context = Context::new(Config::new(String::from("example.org"))).unwrap();
    assert_eq!(*context.config(), Config::new(String::from("example.org")));
    assert_eq!(context.config().host_name(), "example.org");
}

#[test]
fn context_from_file_wraps_the_parsed_config() {
    let read = ReadOutcome::Parsed(Config::new(String::from("example.org")));
    let context = Context::from_file("config.json", read).unwrap();
    assert_eq!(*context.config(), Config::new(String::from("example.org")));
}

#[test]
fn context_from_file_passes_on_config_file_bad() {
    let built = Context::from_file("missing.json", ReadOutcome::NotOpened);
    assert!(matches!(built, Err(Error::ConfigFileBad("missing.json"))));
}

#[test]
fn context_from_file_passes_on_config_file_unreadable() {
    let built = Context::from_file("broken.json", ReadOutcome::NotParsed);
    assert!(matches!(built, Err(Error::ConfigFileUnreadable("broken.json"))));
}

#[test]
fn setup_on_the_sample_file_gives_the_default_config() {
    let read = ReadOutcome::Parsed(Config::new(String::from("samuel")));
    let context = setup("config.json", read).unwrap();
    assert_eq!(*context.config(), Config::default());
}

#[test]
fn setup_wraps_the_parsed_config() {
    let read = ReadOutcome::Parsed(Config::new(String::from("db-7.internal")));
    let context = setup("config.json", read).unwrap();
    assert_eq!(context.config().host_name(), "db-7.internal");
}

#[test]
fn setup_passes_on_config_file_bad() {
    let built = setup("config.json", ReadOutcome::NotOpened);
    assert!(matches!(built, Err(Error::ConfigFileBad("config.json"))));
}

#[test]
fn setup_passes_on_config_file_unreadable() {
    let built = setup("config.json", ReadOutcome::NotParsed);
    assert!(matches!(built, Err(Error::ConfigFileUnreadable("config.json"))));
}
