use iec104_simulator_backend::api::{normalize_ui_language, ApiErrorCode};
use iec104_simulator_backend::ui_language::{
    finish_ui_language_write, prepare_ui_language_value, read_ui_language,
    DEFAULT_UI_LANGUAGE, UI_LANGUAGE_SETTING_KEY, UI_SETTING_CATEGORY,
};

#[test]
fn offered_locales_are_recognised_after_trimming() {
    assert_eq!(normalize_ui_language("zh-CN"), Some("zh-CN"));
    assert_eq!(normalize_ui_language("  en-US\n"), Some("en-US"));
    assert_eq!(normalize_ui_language("en-us"), None);
    assert_eq!(normalize_ui_language("fr-FR"), None);
    assert_eq!(normalize_ui_language(""), None);
    assert_eq!(DEFAULT_UI_LANGUAGE, "zh-CN");
    assert_eq!(UI_LANGUAGE_SETTING_KEY, "ui.language");
    assert_eq!(UI_SETTING_CATEGORY, "ui");
}

#[test]
fn stored_language_is_read_or_defaulted() {
    assert_eq!(read_ui_language(Ok(None)).unwrap(), "zh-CN");
    assert_eq!(read_ui_language(Ok(Some("\"en-US\"".to_string()))).unwrap(), "en-US");
    assert_eq!(read_ui_language(Ok(Some(" \" en-US \" ".to_string()))).unwrap(), "en-US");
    assert_eq!(read_ui_language(Ok(Some("\"de-DE\"".to_string()))).unwrap(), "zh-CN");
    assert_eq!(read_ui_language(Ok(Some("en-US".to_string()))).unwrap(), "zh-CN");
    let err = read_ui_language(Err("disk gone".to_string())).unwrap_err();
    assert_eq!(err.code, ApiErrorCode::DbReadFailed);
    assert_eq!(err.message, "读取界面语言失败: disk gone");
}

#[test]
fn language_writes_are_checked_and_read_back() {
    let value = prepare_ui_language_value(" en-US ").unwrap();
    assert_eq!(value, "\"en-US\"");
    assert_eq!(read_ui_language(Ok(Some(value))).unwrap(), "en-US");
    let value = prepare_ui_language_value("zh-CN").unwrap();
    assert_eq!(read_ui_language(Ok(Some(value))).unwrap(), "zh-CN");
    let err = prepare_ui_language_value(" ja-JP").unwrap_err();
    assert_eq!(err.code, ApiErrorCode::InvalidLocale);
    assert_eq!(err.message, "不支持的界面语言:  ja-JP");
    assert_eq!(err.params, Some(vec![("locale".to_string(), " ja-JP".to_string())]));
    assert!(finish_ui_language_write(Ok(())).is_ok());
    let err = finish_ui_language_write(Err("locked".to_string())).unwrap_err();
    assert_eq!(err.code, ApiErrorCode::DbWriteFailed);
    assert_eq!(err.message, "保存界面语言失败: locked");
}
