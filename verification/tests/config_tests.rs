use rileyviewer::config::{
    Config, ConfigFile, ServerConfig, CONFIG_HEADER, DEFAULT_HISTORY_LIMIT, DEFAULT_HOST,
    DEFAULT_PORT,
};

#[test]
fn test_default_config() {
    let config = Config::default();
    assert_eq!(config.server.host, DEFAULT_HOST);
    assert_eq!(config.server.port, DEFAULT_PORT);
    assert_eq!(config.server.history_limit, DEFAULT_HISTORY_LIMIT);
    assert!(config.server.open_browser);
}

#[test]
fn default_values_are_the_documented_ones() {
    assert_eq!(DEFAULT_HOST, "127.0.0.1");
    assert_eq!(DEFAULT_PORT, 7878);
    assert_eq!(DEFAULT_HISTORY_LIMIT, 200);
}

fn custom() -> Config {
    Config {
        server: ServerConfig {
            host: "0.0.0.0".to_string(),
            port: 9000,
            history_limit: 500,
            open_browser: false,
        },
    }
}

#[test]
fn load_keeps_a_parsed_configuration() {
    assert_eq!(Config::load(ConfigFile::Parsed(custom())), custom());
    assert_eq!(Config::load_from(ConfigFile::Parsed(custom())), Some(custom()));
}

#[test]
fn load_falls_back_to_defaults() {
    assert_eq!(Config::load(ConfigFile::Missing), Config::default());
    assert_eq!(Config::load(ConfigFile::Unreadable), Config::default());
    assert_eq!(Config::load(ConfigFile::Malformed), Config::default());
}

#[test]
fn load_from_gives_nothing_without_a_valid_file() {
    assert_eq!(Config::load_from(ConfigFile::Missing), None);
    assert_eq!(Config::load_from(ConfigFile::Unreadable), None);
    assert_eq!(Config::load_from(ConfigFile::Malformed), None);
}

#[test]
fn write_default_puts_the_header_first() {
    let body = "[server]\nhost = \"127.0.0.1\"\n";
    let contents = Config::write_default(body);
    assert_eq!(
        contents,
        "# RileyViewer configuration\n# See https://github.com/rileyleff/rileyviewer for documentation\n\n[server]\nhost = \"127.0.0.1\"\n"
    );
    assert!(contents.starts_with(CONFIG_HEADER));
    assert_eq!(Config::write_default(""), CONFIG_HEADER);
}

#[test]
fn clone_keeps_every_setting() {
    let config = custom();
    assert_eq!(config.clone(), config);
}
