use pico::config::{ConfigLoad, ConfigManager, EditorConfig, Insert};

#[test]
fn default_config_values() {
    let c = EditorConfig::default();
    assert!(c.insert.autopairs);
    assert!(c.insert.expand_tab);
    assert_eq!(c.insert.space_expansion, Some(2));
    assert_eq!(c.additional_quit_amount, 3);
}

#[test]
fn new_config_keeps_its_parts() {
    let insert = Insert { autopairs: false, expand_tab: false, space_expansion: None };
    let c = EditorConfig::new(insert, 7);
    assert!(!c.insert.autopairs);
    assert!(!c.insert.expand_tab);
    assert_eq!(c.insert.space_expansion, None);
    assert_eq!(c.additional_quit_amount, 7);
}

#[test]
fn loaded_config_is_kept() {
    let insert = Insert { autopairs: false, expand_tab: true, space_expansion: Some(4) };
    let load = ConfigLoad::Loaded(EditorConfig::new(insert, 1));
    assert_eq!(load.warning(), None);
    let m = ConfigManager::from_load(load);
    assert_eq!(m.get_config().additional_quit_amount, 1);
    assert_eq!(m.get_config().insert.space_expansion, Some(4));
    assert!(!m.get_config().insert.autopairs);
}

#[test]
fn unreadable_file_gives_default_and_warning() {
    let load = ConfigLoad::Unreadable;
    assert_eq!(load.warning(), Some("Failed to read the config file. Using default config."));
    let m = ConfigManager::from_load(load);
    assert_eq!(m.get_config().additional_quit_amount, 3);
    assert_eq!(m.get_config().insert.space_expansion, Some(2));
}

#[test]
fn malformed_file_gives_default_and_warning() {
    let load = ConfigLoad::Malformed;
    assert_eq!(load.warning(), Some("Failed to deserialize config. Using default config."));
    let m = ConfigManager::from_load(load);
    assert!(m.get_config().insert.autopairs);
    assert_eq!(m.get_config().additional_quit_amount, 3);
}

#[test]
fn write_through_mut_config_reads_back() {
    let mut m = ConfigManager::from_load(ConfigLoad::Unreadable);
    m.get_mut_config().additional_quit_amount = 9;
    m.get_mut_config().insert.space_expansion = None;
    assert_eq!(m.get_config().additional_quit_amount, 9);
    assert_eq!(m.get_config().insert.space_expansion, None);
    assert!(m.get_config().insert.autopairs);
}
