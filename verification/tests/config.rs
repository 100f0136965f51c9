use rusty_jack::config::{
    default_scalar_webapi_device_model, default_scalar_webapi_device_path,
    default_scalar_webapi_device_triggers, validate_config, Config, DeviceSelectorConfig,
    ScalarWebApiDeviceConfig,
};

/// Config with the loader's defaults for every field the JSON leaves out.
fn with_preferred_uid(uid: &str) -> Config {
    let mut config = Config::default();
    config.preferred_device = DeviceSelectorConfig { name: None, uid: Some(uid.into()) };
    config
}

/// `scalar_webapi_device` section with the loader's defaults.
fn scalar_section(enabled: bool, mac_output: DeviceSelectorConfig) -> ScalarWebApiDeviceConfig {
    ScalarWebApiDeviceConfig {
        enabled,
        model: default_scalar_webapi_device_model(),
        host: None,
        port: 10_000,
        path: default_scalar_webapi_device_path(),
        mac_output,
        triggers: default_scalar_webapi_device_triggers(),
        wake_debounce_ms: 30_000,
        request_timeout_ms: 3_000,
        require_quick_start: true,
    }
}

#[test]
fn test_load_config_by_device_name_and_uid() {
    let mut config = Config::default();
    config.preferred_device = DeviceSelectorConfig {
        name: Some("External Headphones".into()),
        uid: Some("BuiltInHeadphoneOutputDevice".into()),
    };
    assert!(validate_config(&config).is_ok());
    assert_eq!(config.preferred_device.name.as_deref(), Some("External Headphones"));
    assert_eq!(config.preferred_selector().uid.as_deref(), Some("BuiltInHeadphoneOutputDevice"));
    assert_eq!(config.poll_interval_ms, 3_000);
    assert_eq!(config.switch_delay_ms, 500);
    assert_eq!(config.activity_idle_threshold_ms, 60_000);
    assert_eq!(config.activity_poll_interval_ms, 1_000);
}

#[test]
fn test_legacy_preferred_device_uid() {
    let mut config = Config::default();
    config.preferred_device_uid = Some("hdmi-uid".into());
    assert!(validate_config(&config).is_ok());
    assert_eq!(config.preferred_selector().uid.as_deref(), Some("hdmi-uid"));
}

#[test]
fn test_scalar_webapi_device_disabled_without_host_ok() {
    let mut config = with_preferred_uid("BuiltInHeadphoneOutputDevice");
    config.scalar_webapi_device = Some(scalar_section(false, DeviceSelectorConfig::default()));
    assert!(validate_config(&config).is_ok());
}

#[test]
fn test_scalar_webapi_device_enabled_requires_host() {
    let mut config = with_preferred_uid("BuiltInHeadphoneOutputDevice");
    config.scalar_webapi_device =
        Some(scalar_section(true, DeviceSelectorConfig { name: Some("Built-in".into()), uid: None }));
    assert!(validate_config(&config).is_err());
}

#[test]
fn test_rejects_volume_out_of_range() {
    let mut config = with_preferred_uid("BuiltInHeadphoneOutputDevice");
    config.volume = Some(101);
    assert!(validate_config(&config).is_err());
}

#[test]
fn test_load_config_with_volume() {
    let mut config = with_preferred_uid("BuiltInHeadphoneOutputDevice");
    config.volume = Some(13);
    assert!(validate_config(&config).is_ok());
    assert_eq!(config.volume, Some(13));
}

#[test]
fn test_rejects_zero_poll_interval() {
    let mut config = with_preferred_uid("BuiltInHeadphoneOutputDevice");
    config.poll_interval_ms = 0;
    assert!(validate_config(&config).is_err());
}

#[test]
fn test_rejects_zero_activity_interval() {
    let mut config = with_preferred_uid("BuiltInHeadphoneOutputDevice");
    config.activity_poll_interval_ms = 0;
    assert!(validate_config(&config).is_err());
}

#[test]
fn test_rejects_zero_activity_threshold() {
    let mut config = with_preferred_uid("BuiltInHeadphoneOutputDevice");
    config.activity_idle_threshold_ms = 0;
    assert!(validate_config(&config).is_err());
}

#[test]
fn test_rejects_missing_preferred() {
    assert!(validate_config(&Config::default()).is_err());
}
