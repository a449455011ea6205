use chatgpt_core::conf::AppConf;
use chatgpt_core::theme::{text_eq, theme_from, SystemMode, Theme};

#[test]
fn theme_from_follows_the_setting() {
    assert_eq!(theme_from("dark", SystemMode::Light), Theme::Dark);
    assert_eq!(theme_from("light", SystemMode::Dark), Theme::Light);
    assert_eq!(theme_from("purple", SystemMode::Dark), Theme::Light);
    assert_eq!(theme_from("system", SystemMode::Dark), Theme::Dark);
    assert_eq!(theme_from("system", SystemMode::Light), Theme::Light);
    assert_eq!(theme_from("system", SystemMode::Default), Theme::Light);
}

#[test]
fn get_theme_of_explicit_settings() {
    let mut conf = AppConf::new();
    conf.theme = "dark".to_string();
    assert_eq!(conf.get_theme(SystemMode::Light), Theme::Dark);
    conf.theme = "light".to_string();
    assert_eq!(conf.get_theme(SystemMode::Dark), Theme::Light);
    conf.theme = "system".to_string();
    assert_eq!(conf.get_theme(SystemMode::Dark), Theme::Dark);
    assert_eq!(conf.get_theme(SystemMode::Default), Theme::Light);
}

#[test]
fn text_eq_compares_characters() {
    assert!(text_eq("dark", "dark"));
    assert!(!text_eq("dark", "darker"));
    assert!(!text_eq("dark", "Dark"));
    assert!(text_eq("", ""));
}
