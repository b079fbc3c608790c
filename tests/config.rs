use vrclipboard_ime::config::{
    Config, ConversionMethod, Dictionary, DictionaryEntry, OnCopyMode,
};
use vrclipboard_ime::tsf::{check_tsf_availability, set_thread_local_input_settings};

#[test]
fn config_defaults() {
    let c = Config::default();
    assert_eq!(c.prefix, ";");
    assert_eq!(c.split, "/");
    assert_eq!(c.command, ";");
    assert!(c.ignore_prefix);
    assert_eq!(c.on_copy_mode, OnCopyMode::ReturnToChatbox);
    assert!(c.skip_url && c.use_tsf_reconvert && c.skip_on_out_of_vrc);
    assert!(!c.tsf_announce && !c.use_azookey_conversion && !c.azookey_announce);
    assert_eq!(OnCopyMode::default(), OnCopyMode::ReturnToChatbox);
}

#[test]
fn fresh_config_switches_to_the_conversion_engine() {
    let mut c = Config::default();
    c.apply_announcements();
    assert!(c.tsf_announce && c.azookey_announce);
    assert!(c.use_azookey_conversion);
    assert!(!c.use_tsf_reconvert);
}

#[test]
fn announced_config_is_left_alone() {
    let mut c = Config::default();
    c.tsf_announce = true;
    c.azookey_announce = true;
    c.use_tsf_reconvert = false;
    c.use_azookey_conversion = false;
    c.apply_announcements();
    assert!(!c.use_tsf_reconvert && !c.use_azookey_conversion);
}

#[test]
fn only_reconversion_unannounced() {
    let mut c = Config::default();
    c.azookey_announce = true;
    c.use_tsf_reconvert = false;
    c.apply_announcements();
    assert!(c.use_tsf_reconvert && !c.use_azookey_conversion && c.tsf_announce);
}

#[test]
fn dictionary_defaults() {
    assert!(Dictionary::default().entries.is_empty());
    let e = DictionaryEntry::default();
    assert_eq!(e.input, "");
    assert_eq!(e.method, ConversionMethod::NoConversion);
    assert_eq!(e.output, None);
    assert!(!e.use_regex);
    assert_eq!(e.priority, 0);
}

#[test]
fn text_services_availability() {
    assert!(set_thread_local_input_settings(true).is_ok());
    assert!(check_tsf_availability(true, true));
    assert!(!check_tsf_availability(false, true));
    assert!(!check_tsf_availability(true, false));
}
