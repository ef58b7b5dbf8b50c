use weathe_rs::environ::{cli_config, file_config};
use weathe_rs::providers::{get_provider, ProviderKind};
use weathe_rs::types::{Configuration, TempUnit, WeatherInfo};

#[test]
fn apply_overrides_set_fields() {
    let base = Configuration::new(
        Some("2121267".to_string()),
        Some(TempUnit::Celsius),
        Some("yahoo".to_string()),
    );
    let over = Configuration::new(None, Some(TempUnit::Fahrenheit), Some("owm".to_string()));
    let merged = base.apply(over);
    assert_eq!(merged.city, Some("2121267".to_string()));
    assert_eq!(merged.units, Some(TempUnit::Fahrenheit));
    assert_eq!(merged.provider, Some("owm".to_string()));
}

#[test]
fn apply_empty_override_is_noop() {
    let base = Configuration::new(
        Some("42".to_string()),
        Some(TempUnit::Fahrenheit),
        Some("owm".to_string()),
    );
    let merged = base.clone().apply(Configuration::new(None, None, None));
    assert_eq!(merged, base);
}

#[test]
fn resolution_order_cli_wins() {
    let defaults = Configuration::new(None, Some(TempUnit::Celsius), Some("yahoo".to_string()));
    let file = Configuration::new(Some("1".to_string()), None, Some("owm".to_string()));
    let cli = Configuration::new(Some("2".to_string()), None, Some("yahoo".to_string()));
    let merged = defaults.apply(file).apply(cli);
    assert_eq!(merged.city, Some("2".to_string()));
    assert_eq!(merged.provider, Some("yahoo".to_string()));
}

#[test]
fn resolution_order_file_wins_when_cli_unset() {
    let defaults = Configuration::new(None, Some(TempUnit::Celsius), Some("yahoo".to_string()));
    let file = Configuration::new(Some("1".to_string()), Some(TempUnit::Fahrenheit), None);
    let cli = Configuration::new(None, None, None);
    let merged = defaults.apply(file).apply(cli);
    assert_eq!(merged.city, Some("1".to_string()));
    assert_eq!(merged.units, Some(TempUnit::Fahrenheit));
    assert_eq!(merged.provider, Some("yahoo".to_string()));
}

#[test]
fn resolution_order_default_when_both_unset() {
    let defaults = Configuration::new(None, Some(TempUnit::Celsius), Some("yahoo".to_string()));
    let merged = defaults
        .apply(Configuration::new(None, None, None))
        .apply(Configuration::new(None, None, None));
    assert_eq!(merged.city, None);
    assert_eq!(merged.units, Some(TempUnit::Celsius));
    assert_eq!(merged.provider, Some("yahoo".to_string()));
}

#[test]
fn missing_provider_reported_first() {
    let config = Configuration::new(Some("123".to_string()), Some(TempUnit::Celsius), None);
    assert_eq!(
        config.get_weather_by().unwrap_err(),
        "No provider specified!".to_string()
    );
    let bare = Configuration::new(None, None, None);
    assert_eq!(
        bare.get_weather_by().unwrap_err(),
        "No provider specified!".to_string()
    );
}

#[test]
fn unknown_provider_reported() {
    let config = Configuration::new(
        Some("123".to_string()),
        Some(TempUnit::Celsius),
        Some("bogus".to_string()),
    );
    assert_eq!(
        config.get_weather_by().unwrap_err(),
        "Unknown provider!".to_string()
    );
}

#[test]
fn missing_city_reported() {
    let config = Configuration::new(None, Some(TempUnit::Celsius), Some("yahoo".to_string()));
    assert_eq!(
        config.get_weather_by().unwrap_err(),
        "No city specified!".to_string()
    );
}

#[test]
fn missing_units_reported() {
    let config = Configuration::new(Some("123".to_string()), None, Some("yahoo".to_string()));
    assert_eq!(
        config.get_weather_by().unwrap_err(),
        "No units specified!".to_string()
    );
}

#[test]
fn full_configuration_resolves() {
    let config = Configuration::new(
        Some("123".to_string()),
        Some(TempUnit::Fahrenheit),
        Some("owm".to_string()),
    );
    let query = config.get_weather_by().unwrap();
    assert_eq!(query.provider, ProviderKind::Owm);
    assert_eq!(query.city, "123".to_string());
    assert_eq!(query.units, TempUnit::Fahrenheit);
}

#[test]
fn registry_resolves_known_names() {
    assert_eq!(get_provider("yahoo"), Some(ProviderKind::Yahoo));
    assert_eq!(get_provider("owm"), Some(ProviderKind::Owm));
    assert_ne!(get_provider("yahoo"), get_provider("owm"));
    assert_eq!(get_provider("bogus"), None);
    assert_eq!(get_provider(""), None);
}

#[test]
fn display_formats_report() {
    let info = WeatherInfo::new("Clear".to_string(), 20, TempUnit::Celsius);
    assert_eq!(info.display(), "20°C, Clear".to_string());
}

#[test]
fn display_negative_degrees() {
    let info = WeatherInfo::new("Chilly".to_string(), -5, TempUnit::Fahrenheit);
    assert_eq!(info.display(), "-5°F, Chilly".to_string());
}

#[test]
fn cli_config_empty_arguments_leave_fields_unset() {
    let config = cli_config(false, "", "");
    assert_eq!(config, Configuration::new(None, None, None));
}

#[test]
fn cli_config_fahrenheit_flag_sets_unit() {
    let config = cli_config(true, "123", "owm");
    assert_eq!(config.units, Some(TempUnit::Fahrenheit));
    assert_eq!(config.city, Some("123".to_string()));
    assert_eq!(config.provider, Some("owm".to_string()));
}

#[test]
fn file_config_absent_file_is_all_unset() {
    let config = file_config(None).unwrap();
    assert_eq!(config, Configuration::new(None, None, None));
}

#[test]
fn file_config_reads_params_table() {
    let text = "[params]\ncity = 2121267\nfahrenheits = false\nprovider = \"owm\"\n";
    let config = file_config(Some(text)).unwrap();
    assert_eq!(config.city, Some("2121267".to_string()));
    assert_eq!(config.units, Some(TempUnit::Celsius));
    assert_eq!(config.provider, Some("owm".to_string()));
}

#[test]
fn file_config_fahrenheits_true_sets_fahrenheit() {
    let text = "[params]\nfahrenheits = true\n";
    let config = file_config(Some(text)).unwrap();
    assert_eq!(config.city, None);
    assert_eq!(config.units, Some(TempUnit::Fahrenheit));
    assert_eq!(config.provider, None);
}

#[test]
fn file_config_wrong_types_leave_fields_unset() {
    let text = "[params]\ncity = \"name\"\nfahrenheits = 3\nprovider = 7\n";
    let config = file_config(Some(text)).unwrap();
    assert_eq!(config, Configuration::new(None, None, None));
}

#[test]
fn file_config_malformed_text_is_rejected() {
    assert_eq!(
        file_config(Some("not = = toml")).unwrap_err(),
        "Can't parse the config".to_string()
    );
}

#[test]
fn file_config_missing_params_table_is_rejected() {
    assert_eq!(
        file_config(Some("[other]\nx = 1\n")).unwrap_err(),
        "Can't parse the config".to_string()
    );
}

#[test]
fn merged_sources_resolve_to_a_query() {
    let defaults = Configuration::new(None, Some(TempUnit::Celsius), Some("yahoo".to_string()));
    let file = file_config(Some("[params]\ncity = 2121267\n")).unwrap();
    let cli = cli_config(false, "", "owm");
    let query = defaults.apply(file).apply(cli).get_weather_by().unwrap();
    assert_eq!(query.provider, ProviderKind::Owm);
    assert_eq!(query.city, "2121267".to_string());
    assert_eq!(query.units, TempUnit::Celsius);
}
