use gemma_core::config::AppConfig;

fn default_models_dir_path_app_test() -> String {
    "./.model_cache".to_string()
}
fn default_api_host_app_test() -> String {
    "127.0.0.1".to_string()
}
fn default_api_port_app_test() -> u16 {
    8080
}
fn default_log_level_app_test() -> String {
    "info".to_string()
}
fn default_theme_app_test() -> String {
    "dark".to_string()
}

#[test]
fn test_app_config_default_values() {
    let config = AppConfig::default();
    assert_eq!(
        config.model_config.model_dir,
        default_models_dir_path_app_test()
    );
    assert!(config.model_config.preload_models.is_empty());
    assert_eq!(config.model_config.allow_dynamic_loading, true);

    assert_eq!(config.api_config.host, default_api_host_app_test());
    assert_eq!(config.api_config.port, default_api_port_app_test());
    assert_eq!(config.api_config.cors_enabled, false);

    assert_eq!(config.logging_config.level, default_log_level_app_test());
    assert_eq!(config.logging_config.log_file, None);
    assert_eq!(config.logging_config.json_format, false);

    assert_eq!(config.general_settings.theme, default_theme_app_test());
    assert_eq!(config.general_settings.language, "en_US".to_string());
}

#[test]
fn test_default_helpers_agree_with_default_struct() {
    let config = AppConfig::default();
    assert_eq!(
        config.model_config,
        gemma_core::config::default_model_config()
    );
    assert_eq!(config.api_config, gemma_core::config::default_api_config());
    assert_eq!(
        config.logging_config,
        gemma_core::config::default_logging_config()
    );
    assert_eq!(
        config.general_settings,
        gemma_core::config::default_general_settings()
    );
    assert_eq!(gemma_core::config::default_api_port_app(), 8080);
    assert_eq!(gemma_core::config::default_language_app(), "en_US");
    assert_eq!(gemma_core::config::default_allow_dynamic_loading_app(), true);
    assert_eq!(gemma_core::config::default_api_cors_enabled_app(), false);
    assert_eq!(gemma_core::config::default_log_json_app(), false);
}
