use voicers_config::config::{
    config_from_table, default_discord, default_logging_level, parse_config, render_config,
    repair_config, repaired_from_table, verify_config, Config, Discord, Logging,
};
use voicers_config::loader::{default_document, get_config, Action, ConfigLoader, Event, Fatal};
use voicers_config::severity::{get_logging_config, severity_of, Severity};

fn config(level: &str, token: &str) -> Config {
    Config {
        logging: Logging { level: level.to_string() },
        discord: Discord { bot_token: token.to_string() },
    }
}

fn fields(c: &Config) -> (String, String) {
    (c.logging.level.clone(), c.discord.bot_token.clone())
}

fn pair(level: &str, token: &str) -> (String, String) {
    (level.to_string(), token.to_string())
}

#[test]
fn creation_gives_info_and_empty_token_and_reloads_the_same() {
    let mut loader = ConfigLoader::new();
    let text = match loader.step(Event::NotFound) {
        Action::CreateFile(t) => t,
        _ => panic!("expected the default file to be created"),
    };
    assert_eq!(text, default_document());
    assert!(matches!(loader.step(Event::Written), Action::ReadFile));
    assert!(matches!(loader.step(Event::Read(text.clone())), Action::Finish(false)));
    assert!(loader.is_done());
    assert_eq!(fields(get_config(&loader).unwrap()), pair("Info", ""));

    let mut again = ConfigLoader::new();
    assert!(matches!(again.step(Event::Read(text)), Action::Finish(false)));
    assert_eq!(fields(get_config(&again).unwrap()), pair("Info", ""));
}

#[test]
fn well_formed_file_loads_without_repair() {
    let mut loader = ConfigLoader::new();
    let text = "[logging]\nlevel = \"Warn\"\n\n[discord]\nbot_token = \"abc\"\n";
    assert!(matches!(loader.step(Event::Read(text.to_string())), Action::Finish(false)));
    assert_eq!(fields(get_config(&loader).unwrap()), pair("Warn", "abc"));
    assert_eq!(get_logging_config(get_config(&loader).unwrap()), Severity::Warn);
}

#[test]
fn wrong_typed_level_repairs_and_keeps_token() {
    let text = "[logging]\nlevel = 5\n\n[discord]\nbot_token = \"secret-token\"\n";
    assert!(parse_config(text).is_none());
    assert_eq!(fields(&repair_config(text)), pair("Debug", "secret-token"));

    let mut loader = ConfigLoader::new();
    let written = match loader.step(Event::Read(text.to_string())) {
        Action::RewriteFile(t) => t,
        _ => panic!("expected a repair"),
    };
    assert_eq!(fields(&parse_config(&written).unwrap()), pair("Debug", "secret-token"));
    assert!(matches!(loader.step(Event::Written), Action::ReadFile));
    assert!(matches!(loader.step(Event::Read(written)), Action::Finish(false)));
    assert_eq!(fields(get_config(&loader).unwrap()), pair("Debug", "secret-token"));
}

#[test]
fn wrong_typed_token_repairs_and_keeps_level() {
    let text = "[logging]\nlevel = \"Trace\"\n\n[discord]\nbot_token = [1, 2]\n";
    assert_eq!(fields(&repair_config(text)), pair("Trace", ""));
}

#[test]
fn invalid_document_repairs_to_fallbacks() {
    let text = "[logging\nlevel = \"Warn\"\n\n[discord]\nbot_token = \"abc\"\n";
    assert!(parse_config(text).is_none());
    assert_eq!(fields(&repair_config(text)), pair("Debug", ""));
    assert_eq!(fields(&repaired_from_table(None)), pair("Debug", ""));
}

#[test]
fn empty_level_loads_with_warning_and_resolves_to_debug() {
    let mut loader = ConfigLoader::new();
    let text = "[logging]\nlevel = \"\"\n\n[discord]\nbot_token = \"abc\"\n";
    assert!(matches!(loader.step(Event::Read(text.to_string())), Action::Finish(true)));
    let c = get_config(&loader).unwrap();
    assert_eq!(fields(c), pair("", "abc"));
    assert!(verify_config(c));
    assert_eq!(get_logging_config(c), Severity::Debug);
}

#[test]
fn read_failure_aborts() {
    let mut loader = ConfigLoader::new();
    assert!(matches!(loader.step(Event::ReadFailed), Action::Abort(Fatal::Unreadable)));
    assert!(loader.is_done());
    assert!(get_config(&loader).is_none());
}

#[test]
fn create_failure_aborts() {
    let mut loader = ConfigLoader::new();
    assert!(matches!(loader.step(Event::NotFound), Action::CreateFile(_)));
    assert!(matches!(loader.step(Event::WriteFailed), Action::Abort(Fatal::CreateFailed)));
    assert!(get_config(&loader).is_none());
}

#[test]
fn repair_write_failure_aborts() {
    let mut loader = ConfigLoader::new();
    assert!(matches!(loader.step(Event::Read("[[[".to_string())), Action::RewriteFile(_)));
    assert!(matches!(loader.step(Event::WriteFailed), Action::Abort(Fatal::RepairFailed)));
}

#[test]
fn unparsable_after_repair_aborts() {
    let mut loader = ConfigLoader::new();
    assert!(matches!(loader.step(Event::Read("[[[".to_string())), Action::RewriteFile(_)));
    assert!(matches!(loader.step(Event::Written), Action::ReadFile));
    assert!(matches!(loader.step(Event::Read("[[[".to_string())), Action::Abort(Fatal::Unparsable)));
    assert!(get_config(&loader).is_none());
}

#[test]
fn reread_failure_after_create_aborts() {
    let mut loader = ConfigLoader::new();
    assert!(matches!(loader.step(Event::NotFound), Action::CreateFile(_)));
    assert!(matches!(loader.step(Event::Written), Action::ReadFile));
    assert!(matches!(loader.step(Event::NotFound), Action::Abort(Fatal::Unreadable)));
}

#[test]
fn missing_keys_take_fallbacks() {
    let c = parse_config("[logging]\n\n[discord]\n").unwrap();
    assert_eq!(fields(&c), pair("Debug", ""));
}

#[test]
fn missing_section_does_not_load() {
    assert!(parse_config("[logging]\nlevel = \"Info\"\n").is_none());
    assert_eq!(fields(&repair_config("[logging]\nlevel = \"Info\"\n")), pair("Info", ""));
    assert!(parse_config("logging = 3\n[discord]\nbot_token = \"x\"\n").is_none());
}

#[test]
fn config_from_parsed_table() {
    let t: toml::Table =
        toml::from_str("[logging]\nlevel = \"Error\"\nextra = 1\n[discord]\nbot_token = \"t\"\n")
            .unwrap();
    assert_eq!(fields(&config_from_table(&t).unwrap()), pair("Error", "t"));
    assert_eq!(fields(&repaired_from_table(Some(&t))), pair("Error", "t"));
    let bad: toml::Table = toml::from_str("[logging]\nlevel = true\n[discord]\n").unwrap();
    assert!(config_from_table(&bad).is_none());
    assert_eq!(fields(&repaired_from_table(Some(&bad))), pair("Debug", ""));
}

#[test]
fn rendered_config_parses_back() {
    let c = config("Info", "a \"quoted\" token");
    let text = render_config(&c);
    assert!(text.contains("[logging]"));
    assert_eq!(fields(&parse_config(&text).unwrap()), pair("Info", "a \"quoted\" token"));
}

#[test]
fn fallback_values() {
    assert_eq!(default_logging_level(), "Debug");
    assert_eq!(default_discord(), "");
}

#[test]
fn severity_names_and_digits() {
    assert_eq!(severity_of("warn"), Some(Severity::Warn));
    assert_eq!(severity_of("TRACE"), Some(Severity::Trace));
    assert_eq!(severity_of("Info"), Some(Severity::Info));
    assert_eq!(severity_of("eRRoR"), Some(Severity::Error));
    assert_eq!(severity_of("off"), Some(Severity::Off));
    assert_eq!(severity_of("Debug"), Some(Severity::Debug));
    assert_eq!(severity_of("0"), Some(Severity::Off));
    assert_eq!(severity_of("3"), Some(Severity::Info));
    assert_eq!(severity_of("5"), Some(Severity::Trace));
    assert_eq!(severity_of("6"), None);
    assert_eq!(severity_of("warning"), None);
    assert_eq!(severity_of("+3"), Some(Severity::Info));
    assert_eq!(severity_of("03"), Some(Severity::Info));
    assert_eq!(severity_of("+"), None);
    assert_eq!(severity_of("06"), None);
    assert_eq!(severity_of(""), Some(Severity::Error));
}

#[test]
fn unknown_level_resolves_to_debug() {
    assert_eq!(get_logging_config(&config("verbose", "")), Severity::Debug);
    assert_eq!(get_logging_config(&config("trace", "")), Severity::Trace);
    assert!(!verify_config(&config("Info", "")));
}
