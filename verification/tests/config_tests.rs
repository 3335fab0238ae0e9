use pilipili_bot::infrastructure::config::config::{
    ConfigSetup, ConfigSource, CONFIG_DIR, CONFIG_FILE, TEMPLATE_FILE,
};
use pilipili_bot::infrastructure::config::{Config, EmbyConfig};

#[test]
fn the_media_server_defaults_to_this_machine() {
    let config = EmbyConfig::default();
    assert_eq!(config.base_url, "http://127.0.0.1:8096");
    assert_eq!(config.api_key, "");
    let whole = Config { emby: config.clone() };
    assert_eq!(whole.emby, config);
}

#[test]
fn the_configuration_lives_under_config() {
    assert_eq!(CONFIG_DIR, "config");
    assert_eq!(CONFIG_FILE, "config/config.toml");
    assert_eq!(TEMPLATE_FILE, "src/infrastructure/config/config.template");
}

#[test]
fn a_missing_file_is_copied_from_the_template() {
    for directory_exists in [false, true] {
        for template_exists in [false, true] {
            assert_eq!(
                Config::init(directory_exists, true, template_exists),
                ConfigSetup { create_directory: !directory_exists, source: ConfigSource::Existing }
            );
        }
        assert_eq!(
            Config::init(directory_exists, false, true),
            ConfigSetup { create_directory: !directory_exists, source: ConfigSource::Template }
        );
        assert_eq!(
            Config::init(directory_exists, false, false),
            ConfigSetup { create_directory: !directory_exists, source: ConfigSource::Missing }
        );
    }
}
