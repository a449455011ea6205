use chatgpt_core::conf::{AppConf, ConfError, ConfField, LoadError};
use chatgpt_core::json::JsonValue;

fn text(s: &str) -> JsonValue {
    JsonValue::String(s.to_string())
}

fn object(members: Vec<(&str, JsonValue)>) -> JsonValue {
    JsonValue::Object(members.into_iter().map(|(k, v)| (k.to_string(), v)).collect())
}

fn default_conf_json() -> JsonValue {
    object(vec![
        ("theme", text("system")),
        ("stay_on_top", JsonValue::Bool(false)),
        ("ask_mode", JsonValue::Bool(false)),
        ("mac_titlebar_hidden", JsonValue::Bool(false)),
    ])
}

fn conf(theme: &str, stay_on_top: bool, ask_mode: bool, mac_titlebar_hidden: bool) -> AppConf {
    AppConf { theme: theme.to_string(), stay_on_top, ask_mode, mac_titlebar_hidden }
}

#[test]
fn test_app_conf_new_defaults() {
    let conf = AppConf::new();
    assert_eq!(conf.theme, "system");
    assert!(!conf.stay_on_top);
    assert!(!conf.ask_mode);
}

#[test]
fn test_app_conf_amend_theme() {
    let conf = conf("system", false, false, false);
    let updated = conf
        .amend(object(vec![("theme", text("dark"))]))
        .expect("amend should succeed");
    assert_eq!(updated.theme, "dark");
    assert!(!updated.stay_on_top);
    assert!(!updated.ask_mode);
}

#[test]
fn test_app_conf_amend_stay_on_top() {
    let conf = conf("light", false, false, false);
    let updated = conf
        .amend(object(vec![("stay_on_top", JsonValue::Bool(true))]))
        .expect("amend should succeed");
    assert!(updated.stay_on_top);
    assert_eq!(updated.theme, "light");
}

#[test]
fn test_app_conf_amend_ask_mode() {
    let conf = conf("dark", false, false, false);
    let updated = conf
        .amend(object(vec![("ask_mode", JsonValue::Bool(true))]))
        .expect("amend should succeed");
    assert!(updated.ask_mode);
    assert_eq!(updated.theme, "dark");
}

#[test]
fn test_app_conf_amend_multiple_fields() {
    let conf = conf("system", false, false, false);
    let updated = conf
        .amend(object(vec![
            ("theme", text("light")),
            ("stay_on_top", JsonValue::Bool(true)),
            ("ask_mode", JsonValue::Bool(true)),
        ]))
        .expect("amend should succeed");
    assert_eq!(updated.theme, "light");
    assert!(updated.stay_on_top);
    assert!(updated.ask_mode);
}

#[test]
fn test_app_conf_amend_empty_patch() {
    let conf = conf("dark", true, true, false);
    let updated = conf
        .amend(object(vec![]))
        .expect("amend with empty patch should succeed");
    assert_eq!(updated.theme, "dark");
    assert!(updated.stay_on_top);
    assert!(updated.ask_mode);
}

#[test]
fn test_app_conf_serialization_roundtrip() {
    let conf = conf("light", true, false, true);
    let json = conf.to_json();
    let restored = AppConf::from_json(&json).expect("deserialize should succeed");
    assert_eq!(restored.theme, conf.theme);
    assert_eq!(restored.stay_on_top, conf.stay_on_top);
    assert_eq!(restored.ask_mode, conf.ask_mode);
    assert_eq!(restored.mac_titlebar_hidden, conf.mac_titlebar_hidden);
}

#[test]
fn test_app_conf_all_theme_values() {
    for theme in &["system", "light", "dark"] {
        let conf = conf("system", false, false, false);
        let updated = conf
            .amend(object(vec![("theme", text(theme))]))
            .expect("amend theme should succeed");
        assert_eq!(&updated.theme, theme);
    }
}

#[test]
fn test_app_conf_amend_does_not_mutate_original() {
    let original_theme = "system".to_string();
    let conf = conf(&original_theme, false, false, false);
    let updated = conf
        .amend(object(vec![("theme", text("dark"))]))
        .expect("amend should succeed");
    assert_eq!(updated.theme, "dark");
    assert_ne!(updated.theme, original_theme);
}

#[test]
fn test_app_conf_default_json_roundtrip() {
    let json = default_conf_json();
    let conf = AppConf::from_json(&json).expect("should parse default conf");
    assert_eq!(conf.theme, "system");
    assert!(!conf.stay_on_top);
    assert!(!conf.ask_mode);
}

#[test]
fn amend_ignores_unknown_members() {
    let updated = conf("dark", false, false, false)
        .amend(object(vec![("zoom", JsonValue::Number("1.5".to_string())), ("ask_mode", JsonValue::Bool(true))]))
        .expect("unknown members are ignored");
    assert_eq!(updated.theme, "dark");
    assert!(updated.ask_mode);
}

#[test]
fn amend_rejects_a_non_object() {
    let r = conf("dark", false, false, false).amend(JsonValue::Array(vec![]));
    assert_eq!(r.err(), Some(ConfError::WrongShape));
    let r = conf("dark", false, false, false).amend(JsonValue::Null);
    assert_eq!(r.err(), Some(ConfError::WrongShape));
}

#[test]
fn amend_rejects_a_wrongly_typed_value() {
    let r = conf("dark", false, false, false).amend(object(vec![("stay_on_top", text("yes"))]));
    assert_eq!(r.err(), Some(ConfError::InvalidType(ConfField::StayOnTop)));
    let r = conf("dark", false, false, false).amend(object(vec![("theme", JsonValue::Bool(true))]));
    assert_eq!(r.err(), Some(ConfError::InvalidType(ConfField::Theme)));
}

#[test]
fn amend_reports_the_first_bad_member_by_name() {
    let r = conf("dark", false, false, false).amend(object(vec![
        ("theme", JsonValue::Null),
        ("stay_on_top", JsonValue::Null),
        ("mac_titlebar_hidden", JsonValue::Null),
    ]));
    assert_eq!(r.err(), Some(ConfError::InvalidType(ConfField::MacTitlebarHidden)));
}

#[test]
fn amend_last_member_wins() {
    let updated = conf("dark", false, false, false)
        .amend(object(vec![("theme", JsonValue::Null), ("theme", text("light"))]))
        .expect("the last value counts");
    assert_eq!(updated.theme, "light");
}

#[test]
fn amend_twice_is_amend_once() {
    let patch = object(vec![("theme", text("light")), ("ask_mode", JsonValue::Bool(true))]);
    let once = conf("dark", true, false, false).amend(object(vec![("theme", text("light")), ("ask_mode", JsonValue::Bool(true))])).unwrap();
    let twice = conf("dark", true, false, false).amend(object(vec![("theme", text("light")), ("ask_mode", JsonValue::Bool(true))])).unwrap().amend(patch).unwrap();
    assert_eq!(once.theme, twice.theme);
    assert_eq!(once.stay_on_top, twice.stay_on_top);
    assert_eq!(once.ask_mode, twice.ask_mode);
    assert_eq!(once.mac_titlebar_hidden, twice.mac_titlebar_hidden);
}

#[test]
fn amend_with_a_full_document_gives_it() {
    let target = conf("light", true, true, true);
    let updated = conf("dark", false, false, false).amend(target.to_json()).unwrap();
    assert_eq!(updated.theme, "light");
    assert!(updated.stay_on_top && updated.ask_mode && updated.mac_titlebar_hidden);
}

#[test]
fn from_json_reports_missing_and_duplicate_members() {
    let r = AppConf::from_json(&object(vec![("theme", text("dark"))]));
    assert_eq!(r.err(), Some(ConfError::MissingField(ConfField::StayOnTop)));
    let r = AppConf::from_json(&object(vec![("theme", text("dark")), ("theme", text("light"))]));
    assert_eq!(r.err(), Some(ConfError::DuplicateField(ConfField::Theme)));
    let r = AppConf::from_json(&object(vec![]));
    assert_eq!(r.err(), Some(ConfError::MissingField(ConfField::Theme)));
    let r = AppConf::from_json(&text("dark"));
    assert_eq!(r.err(), Some(ConfError::WrongShape));
}

#[test]
fn from_json_reads_the_array_form() {
    let items = vec![text("dark"), JsonValue::Bool(true), JsonValue::Bool(false), JsonValue::Bool(true)];
    let c = AppConf::from_json(&JsonValue::Array(items)).unwrap();
    assert_eq!(c.theme, "dark");
    assert!(c.stay_on_top && !c.ask_mode && c.mac_titlebar_hidden);
    let short = vec![text("dark"), JsonValue::Bool(true)];
    assert_eq!(AppConf::from_json(&JsonValue::Array(short)).err(), Some(ConfError::InvalidLength));
    let wrong = vec![JsonValue::Bool(true)];
    assert_eq!(AppConf::from_json(&JsonValue::Array(wrong)).err(), Some(ConfError::InvalidType(ConfField::Theme)));
    let long = vec![text("dark"), JsonValue::Bool(true), JsonValue::Bool(false), JsonValue::Bool(true), JsonValue::Null];
    assert_eq!(AppConf::from_json(&JsonValue::Array(long)).err(), Some(ConfError::InvalidLength));
}

fn typed(theme: &str, stay_on_top: bool, ask_mode: bool, mac_titlebar_hidden: bool) -> Option<AppConf> {
    Some(conf(theme, stay_on_top, ask_mode, mac_titlebar_hidden))
}

#[test]
fn load_of_saved_settings_gives_them_back() {
    let text = r#"{"theme": "dark", "stay_on_top": true, "ask_mode": false, "mac_titlebar_hidden": false}"#;
    let l = AppConf::load(Some((text, typed("dark", true, false, false))), false).unwrap();
    assert_eq!(l.conf.theme, "dark");
    assert!(l.conf.stay_on_top);
    assert!(!l.rewrite);
}

#[test]
fn load_without_a_file_gives_defaults_to_write() {
    let l = AppConf::load(None, true).unwrap();
    assert_eq!(l.conf.theme, "system");
    assert!(l.conf.mac_titlebar_hidden);
    assert!(l.rewrite);
}

#[test]
fn load_of_partial_settings_fills_in_defaults() {
    let l = AppConf::load(Some((r#"{"stay_on_top": true, "zoom": 1.5}"#, None)), true).unwrap();
    assert_eq!(l.conf.theme, "system");
    assert!(l.conf.stay_on_top && l.conf.mac_titlebar_hidden);
    assert!(l.rewrite);
}

#[test]
fn load_of_repeated_keys_is_completed_and_rewritten() {
    let text = r#"{"theme": "light", "theme": "dark", "stay_on_top": true, "ask_mode": false, "mac_titlebar_hidden": false}"#;
    let l = AppConf::load(Some((text, None)), false).unwrap();
    assert_eq!(l.conf.theme, "dark");
    assert!(l.conf.stay_on_top);
    assert!(l.rewrite);
}

#[test]
fn load_rejects_what_is_not_json() {
    assert_eq!(AppConf::load(Some(("theme = dark", None)), false).err(), Some(LoadError::NotJson));
    assert_eq!(AppConf::load(Some(("", None)), false).err(), Some(LoadError::NotJson));
}

#[test]
fn load_rejects_wrong_types() {
    assert_eq!(
        AppConf::load(Some((r#"{"theme": 3}"#, None)), false).err(),
        Some(LoadError::Conf(ConfError::InvalidType(ConfField::Theme)))
    );
    assert_eq!(
        AppConf::load(Some(("[1, 2]", None)), false).err(),
        Some(LoadError::Conf(ConfError::WrongShape))
    );
}
