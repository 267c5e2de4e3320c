use imagr::naming::{decimal_string, extension, filename};
use imagr::Meta;

#[test]
fn is_success_only_for_200() {
    let ok = Meta { status: 200, msg: "OK".to_string() };
    let missing = Meta { status: 404, msg: "Not Found".to_string() };
    let created = Meta { status: 201, msg: "Created".to_string() };
    assert!(ok.is_success());
    assert!(!missing.is_success());
    assert!(!created.is_success());
}

#[test]
fn extension_of_last_segment() {
    assert_eq!(extension("https://64.media.example.com/abc/tumblr_xyz_1280.jpg"), "jpg");
    assert_eq!(extension("https://example.com/a/archive.tar.gz"), "gz");
}

#[test]
fn extension_without_dot_is_whole_segment() {
    assert_eq!(extension("https://example.com/dir.d/noext"), "noext");
    assert_eq!(extension("plain"), "plain");
    assert_eq!(extension("https://example.com/dir/"), "");
}

#[test]
fn decimal_string_values() {
    assert_eq!(decimal_string(0), "0");
    assert_eq!(decimal_string(7), "7");
    assert_eq!(decimal_string(10), "10");
    assert_eq!(decimal_string(1234567890), "1234567890");
    assert_eq!(decimal_string(u64::MAX), "18446744073709551615");
}

#[test]
fn filename_with_slug() {
    assert_eq!(
        filename(174913738196, "we-expect-to-be-in-control", 2, "png"),
        "we-expect-to-be-in-control-174913738196-2.png"
    );
}

#[test]
fn filename_without_slug() {
    assert_eq!(filename(42, "", 0, "jpg"), "42-0.jpg");
    assert_eq!(filename(0, "", 10, ""), "0-10.");
}
