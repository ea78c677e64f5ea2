use snow64::config::{apply_settings, load_config, ConfigError, Snow64Config, DISPLAY_RES};

#[test]
fn empty_file_gives_defaults() {
    assert_eq!(
        load_config(String::new(), true),
        Ok(Snow64Config { display_res: 256, dev_debug: true })
    );
    assert_eq!(Snow64Config::default_for(false), Snow64Config { display_res: DISPLAY_RES, dev_debug: false });
}

#[test]
fn file_sets_resolution_and_debug() {
    let text = "[display]\nres = 512\n[dev]\ndebug = True\n".to_string();
    assert_eq!(load_config(text, false), Ok(Snow64Config { display_res: 512, dev_debug: true }));
}

#[test]
fn small_resolution_is_ignored() {
    let text = "[display]\nres = 100\n".to_string();
    assert_eq!(load_config(text, false), Ok(Snow64Config { display_res: 256, dev_debug: false }));
}

#[test]
fn keys_are_case_insensitive() {
    let text = "[DISPLAY]\nRes = 300\n".to_string();
    assert_eq!(load_config(text, true), Ok(Snow64Config { display_res: 300, dev_debug: true }));
}

#[test]
fn resolution_not_a_number_is_refused() {
    let text = "[display]\nres = big\n".to_string();
    assert!(matches!(load_config(text, false), Err(ConfigError::Value(_))));
}

#[test]
fn debug_not_a_flag_is_refused() {
    let text = "[dev]\ndebug = yes\n".to_string();
    assert!(matches!(load_config(text, false), Err(ConfigError::Value(_))));
}

#[test]
fn unclosed_section_is_refused() {
    let text = "[display\nres = 512\n".to_string();
    assert!(matches!(load_config(text, false), Err(ConfigError::Syntax(_))));
}

#[test]
fn comments_only_gives_defaults() {
    let text = "; nothing here\n# nor here\n".to_string();
    assert_eq!(load_config(text, false), Ok(Snow64Config { display_res: 256, dev_debug: false }));
}

#[test]
fn resolution_counts_low_32_bits() {
    let base = Snow64Config::default_for(false);
    // 2^32 + 300 keeps 300 in its low bits.
    assert_eq!(apply_settings(base, Some(4294967596), None).display_res, 300);
    // 2^32 + 100 keeps 100, which is too small.
    assert_eq!(apply_settings(base, Some(4294967396), None).display_res, 256);
    let text = "[display]\nres = 4294967596\n".to_string();
    assert_eq!(load_config(text, false).unwrap().display_res, 300);
}

#[test]
fn no_settings_change_nothing() {
    let base = Snow64Config { display_res: 1024, dev_debug: true };
    assert_eq!(apply_settings(base, None, None), base);
    assert_eq!(apply_settings(base, None, Some(false)), Snow64Config { display_res: 1024, dev_debug: false });
}

#[test]
fn value_error_carries_parser_message() {
    let text = "[display]\nres = big\n".to_string();
    let mut ini = configparser::ini::Ini::new();
    ini.read(text.clone()).unwrap();
    let expected = ini.getuint("display", "res").unwrap_err();
    assert_eq!(load_config(text.clone(), false), Err(ConfigError::Value(expected)));
    assert_eq!(load_config(text.clone(), false), load_config(text, false));
}

#[test]
fn flag_error_carries_parser_message() {
    let text = "[dev]\ndebug = maybe\n".to_string();
    let mut ini = configparser::ini::Ini::new();
    ini.read(text.clone()).unwrap();
    let expected = ini.getbool("dev", "debug").unwrap_err();
    assert_eq!(load_config(text, true), Err(ConfigError::Value(expected)));
}

#[test]
fn syntax_error_carries_parser_message() {
    let text = "[display\n".to_string();
    let expected = configparser::ini::Ini::new().read(text.clone()).unwrap_err();
    assert_eq!(load_config(text, false), Err(ConfigError::Syntax(expected)));
}
