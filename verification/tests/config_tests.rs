use screenocr::config::should_auto_copy;
use screenocr::config::AppConfig;

#[test]
fn test_default_config() {
    let config = AppConfig::default();
    assert_eq!(config.ocr_engine, "Tesseract");
    assert_eq!(config.trigger_delay_ms, 300);
    assert_eq!(config.auto_copy, true);
}

#[test]
fn default_hotkey_is_alt() {
    let config = AppConfig::default();
    assert_eq!(config.hotkey, "Alt");
}

#[test]
fn clone_keeps_every_field() {
    let config = AppConfig {
        ocr_engine: "WeChatOCR".to_string(),
        trigger_delay_ms: 25,
        hotkey: "Ctrl+Shift+A".to_string(),
        auto_copy: false,
    };
    let copy = config.clone();
    assert_eq!(copy.ocr_engine, "WeChatOCR");
    assert_eq!(copy.trigger_delay_ms, 25);
    assert_eq!(copy.hotkey, "Ctrl+Shift+A");
    assert_eq!(copy.auto_copy, false);
}

#[test]
fn auto_copy_needs_text_and_setting() {
    let mut config = AppConfig::default();
    assert!(should_auto_copy(&config, "recognized"));
    assert!(!should_auto_copy(&config, ""));
    config.auto_copy = false;
    assert!(!should_auto_copy(&config, "recognized"));
}
