use rust_reader::bookinfo::{get_value, BookInfo};
use rust_reader::common::{hash, time_stamp, to_hex};
use rust_reader::config::{Appearance, Config, Setting};
use rust_reader::notification::{Notification, NotificationType};

fn info(id: &str, title: &str) -> BookInfo {
    BookInfo {
        id: id.to_string(),
        file_path: format!("/books/{}.epub", id),
        cover_path: format!("/covers/{}.png", id),
        title: title.to_string(),
        creator: String::new(),
        date: String::new(),
        publisher: String::new(),
        language: String::new(),
        subject: String::new(),
        description: String::new(),
        last_open: 0,
    }
}

#[test]
fn specific_info_finds_the_first_matching_record() {
    let list = vec![info("a", "Alpha"), info("b", "Beta"), info("b", "Beta again")];
    let found = BookInfo::get_specific_info(&list, "b").unwrap();
    assert_eq!(found.title, "Beta");
    assert!(BookInfo::get_specific_info(&list, "zzz").is_none());
}

#[test]
fn info_equality_goes_by_id_and_title() {
    let mut a = info("a", "Alpha");
    let b = info("a", "Alpha");
    assert_eq!(a, b);
    a.creator = "someone".to_string();
    assert_eq!(a, b);
    a.title = "Other".to_string();
    assert!(a != b);
}

#[test]
fn metadata_values_join_with_commas() {
    let data = vec![
        ("title".to_string(), vec!["A Book".to_string()]),
        ("creator".to_string(), vec!["X".to_string(), "Y".to_string(), "Z".to_string()]),
        ("subject".to_string(), Vec::new()),
    ];
    assert_eq!(get_value(&data, "title"), "A Book");
    assert_eq!(get_value(&data, "creator"), "X,Y,Z");
    assert_eq!(get_value(&data, "subject"), "");
    assert_eq!(get_value(&data, "missing"), "");
}

#[test]
fn hex_serialization_is_two_digits_per_byte() {
    assert_eq!(to_hex(&Vec::new()), "");
    assert_eq!(to_hex(&vec![0x00, 0xab, 0x5f]), "00ab5f");
}

#[test]
fn hash_matches_the_known_digest_of_empty_input() {
    assert_eq!(
        hash(&Vec::new()),
        "e3b0c44298fc1c149afbf4c8996fb92427ae41e4649b934ca495991b7852b855"
    );
}

#[test]
fn hash_matches_a_known_digest() {
    assert_eq!(
        hash(&b"abc".to_vec()),
        "ba7816bf8f01cfea414140de5dae2223b00361a396177a9cb410ff61f20015ad"
    );
}

#[test]
fn time_stamp_is_after_the_epoch() {
    assert!(time_stamp() > 0);
}

#[test]
fn default_config_has_light_theme_and_visible_sidebar() {
    let config = Config::default();
    assert_eq!(config.database, "");
    assert_eq!(config.theme.appearance, Appearance::Light);
    assert!(config.setting.sidebar);
    assert!(Setting::default().sidebar);
}

#[test]
fn notifications_carry_their_fields() {
    let n = Notification::new(NotificationType::Warn, "Warn", "No previous page");
    assert_eq!(n.kind, NotificationType::Warn);
    assert_eq!(n.title, "Warn");
    assert_eq!(n.msg, "No previous page");
}
