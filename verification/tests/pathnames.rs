use cavif::pathnames::base_name;
use cavif::pathnames::has_avif_extension;
use cavif::pathnames::join_under_directory;
use cavif::pathnames::replace_extension_with_avif;
use cavif::text::decimal_string;
use cavif::text::parses_as_u8;
use cavif::text::str_eq;

#[test]
fn extension_replacement() {
    assert_eq!(replace_extension_with_avif("photo.jpg").as_str(), "photo.avif");
    assert_eq!(replace_extension_with_avif("a.tar.gz").as_str(), "a.tar.avif");
    assert_eq!(replace_extension_with_avif("noext").as_str(), "noext.avif");
    assert_eq!(replace_extension_with_avif(".hidden").as_str(), ".hidden.avif");
    assert_eq!(replace_extension_with_avif("dir.d/name").as_str(), "dir.d/name.avif");
    assert_eq!(replace_extension_with_avif("dir/img.png").as_str(), "dir/img.avif");
}

#[test]
fn avif_extension_detection() {
    assert!(has_avif_extension("x.avif"));
    assert!(has_avif_extension("some/dir/x.avif"));
    assert!(!has_avif_extension("x.AVIF"));
    assert!(!has_avif_extension("x.png"));
    assert!(!has_avif_extension("avif"));
    assert!(!has_avif_extension(".avif"));
    assert!(!has_avif_extension("-"));
}

#[test]
fn base_names() {
    assert_eq!(base_name("dir/img.png").expect("named").as_str(), "img.png");
    assert_eq!(base_name("img.png").expect("named").as_str(), "img.png");
    assert!(base_name("dir/").is_none());
    assert!(base_name(".").is_none());
    assert!(base_name("..").is_none());
}

#[test]
fn joining_under_directories() {
    assert_eq!(join_under_directory("out", "a.avif").as_str(), "out/a.avif");
    assert_eq!(join_under_directory("out/", "a.avif").as_str(), "out/a.avif");
    assert_eq!(join_under_directory("", "a.avif").as_str(), "a.avif");
}

#[test]
fn decimal_rendering() {
    assert_eq!(decimal_string(0).as_str(), "0");
    assert_eq!(decimal_string(7).as_str(), "7");
    assert_eq!(decimal_string(255).as_str(), "255");
    assert_eq!(decimal_string(1000).as_str(), "1000");
    assert_eq!(decimal_string(987654).as_str(), "987654");
}

#[test]
fn numeral_detection() {
    assert!(parses_as_u8("40"));
    assert!(parses_as_u8("007"));
    assert!(parses_as_u8("+12"));
    assert!(parses_as_u8("255"));
    assert!(!parses_as_u8("256"));
    assert!(!parses_as_u8("1a"));
    assert!(!parses_as_u8("-"));
    assert!(!parses_as_u8(""));
    assert!(!parses_as_u8("+"));
}

#[test]
fn string_equality() {
    assert!(str_eq("abc", "abc"));
    assert!(!str_eq("abc", "abd"));
    assert!(str_eq("", ""));
}
