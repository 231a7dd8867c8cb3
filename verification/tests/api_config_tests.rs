use cursor_pro_helper::api_config::{ApiConfig, ApiConfigManager};

#[test]
fn test_api_config_manager() {
    let mut manager = ApiConfigManager::new("api_config.json".to_string(), None);

    // Default config while no file content exists
    let config = manager.load().unwrap();
    assert_eq!(config.url, "https://cursor-account-api.vercel.app/account/random");

    // Saving config
    let new_config = ApiConfig { url: "https://example.com/api".to_string() };
    manager.save(&new_config).unwrap();

    // Loading saved config
    let loaded_config = manager.load().unwrap();
    assert_eq!(loaded_config.url, new_config.url);

    // Resetting config
    let reset_config = manager.reset().unwrap();
    assert_eq!(reset_config.url, "https://cursor-account-api.vercel.app/account/random");
}

#[test]
fn load_rejects_text_without_url() {
    let manager = ApiConfigManager::new("api_config.json".to_string(), Some("{\"other\":1}".to_string()));
    assert!(manager.load().is_err());
}

#[test]
fn load_rejects_invalid_json() {
    let manager = ApiConfigManager::new("api_config.json".to_string(), Some("not json".to_string()));
    assert!(manager.load().is_err());
}

#[test]
fn load_reads_stored_url() {
    let manager = ApiConfigManager::new(
        "api_config.json".to_string(),
        Some("{\"url\": \"https://example.org/x\"}".to_string()),
    );
    assert_eq!(manager.load().unwrap().url, "https://example.org/x");
}
