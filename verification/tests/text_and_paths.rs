use audio_manager::paths::{expand_tilde, extension_of, has_json_extension, home_or_default, join_path};
use audio_manager::text::{
    cat2, cat3, cat4, contains_text, pad2_text, pad4_text, year_text_of, decimal_text, ends_with_text, matches_at, starts_with_text,
    bytes_le_exec,
};

#[test]
fn substring_search() {
    assert!(contains_text("run-on-spawn \"easyeffects\"", "easyeffects"));
    assert!(!contains_text("easyeffect", "easyeffects"));
    assert!(contains_text("abc", ""));
    assert!(contains_text("", ""));
    assert!(!contains_text("", "a"));
    assert!(contains_text("aaab", "ab"));
    assert!(contains_text("Warning: x", "Warning"));
    assert!(matches_at("hello", "ll", 2));
    assert!(!matches_at("hello", "ll", 1));
}

#[test]
fn prefixes_and_suffixes() {
    assert!(starts_with_text("audio_backup_1.tar.gz", "audio_backup_"));
    assert!(!starts_with_text("audio", "audio_backup_"));
    assert!(ends_with_text("audio_backup_1.tar.gz", ".tar.gz"));
    assert!(!ends_with_text("audio_backup_1.tar", ".tar.gz"));
    assert!(starts_with_text("x", ""));
    assert!(ends_with_text("x", ""));
}

#[test]
fn byte_order_is_lexicographic() {
    assert!(bytes_le_exec(b"a", b"b"));
    assert!(!bytes_le_exec(b"b", b"a"));
    assert!(bytes_le_exec(b"ab", b"abc"));
    assert!(!bytes_le_exec(b"abc", b"ab"));
    assert!(bytes_le_exec(b"same", b"same"));
    assert!(bytes_le_exec(b"", b"x"));
    assert!(bytes_le_exec(b"\x7f", b"\xff"));
    assert!(bytes_le_exec(
        b"audio_backup_20240101_120000.tar.gz",
        b"audio_backup_20240102_000000.tar.gz"
    ));
}

#[test]
fn padded_numbers() {
    assert_eq!(pad2_text(0), "00");
    assert_eq!(pad2_text(7), "07");
    assert_eq!(pad2_text(42), "42");
    assert_eq!(pad4_text(7), "0007");
    assert_eq!(pad4_text(2024), "2024");
    assert_eq!(year_text_of(0), "0000");
    assert_eq!(year_text_of(9999), "9999");
    assert_eq!(year_text_of(10000), "+10000");
    assert_eq!(year_text_of(-1), "-0001");
    assert_eq!(year_text_of(i32::MIN), "-2147483648");
}

#[test]
fn decimal_numbers() {
    assert_eq!(decimal_text(0), "0");
    assert_eq!(decimal_text(7), "7");
    assert_eq!(decimal_text(10), "10");
    assert_eq!(decimal_text(4096), "4096");
    assert_eq!(decimal_text(u32::MAX), "4294967295");
}

#[test]
fn concatenation() {
    assert_eq!(cat2("a", "b"), "ab");
    assert_eq!(cat3("a", "", "c"), "ac");
    assert_eq!(cat4("Linked: ", "/d", " -> ", "/s"), "Linked: /d -> /s");
}

#[test]
fn joining_paths() {
    assert_eq!(join_path("/home/u", ".config"), "/home/u/.config");
    assert_eq!(join_path("/home/u/", ".config"), "/home/u/.config");
    assert_eq!(join_path("/home/u", "/etc/x"), "/etc/x");
    assert_eq!(join_path("", "a"), "a");
    assert_eq!(join_path("a", ""), "a/");
    assert_eq!(join_path(".", "x/y"), "./x/y");
}

#[test]
fn joining_agrees_with_std() {
    for (base, rest) in [
        ("/home/u", ".config"),
        ("/home/u/", "x"),
        ("/", "a"),
        ("a", "/b"),
        ("", "c"),
        ("d", ""),
    ] {
        let std_join = std::path::Path::new(base).join(rest);
        assert_eq!(join_path(base, rest), std_join.to_string_lossy());
    }
}

#[test]
fn tilde_expansion() {
    assert_eq!(expand_tilde("~/.config", "/home/u"), "/home/u/.config");
    assert_eq!(expand_tilde("/abs/path", "/home/u"), "/abs/path");
    assert_eq!(expand_tilde("~user/x", "/home/u"), "~user/x");
    assert_eq!(expand_tilde("~/", "/home/u"), "/home/u/");
}

#[test]
fn home_fallback() {
    assert_eq!(home_or_default(Some("/home/u".to_string())), "/home/u");
    assert_eq!(home_or_default(None), ".");
}

#[test]
fn file_extensions() {
    assert_eq!(extension_of("Perfect EQ.json"), Some("json".to_string()));
    assert_eq!(extension_of("a.b.json"), Some("json".to_string()));
    assert_eq!(extension_of("archive.tar.gz"), Some("gz".to_string()));
    assert_eq!(extension_of("noext"), None);
    assert_eq!(extension_of(".json"), None);
    assert_eq!(extension_of(".."), None);
    assert_eq!(extension_of("trailing."), Some(String::new()));
    assert_eq!(extension_of(""), None);
}

#[test]
fn extensions_agree_with_std() {
    for name in ["Perfect EQ.json", "a.b.c", ".hidden", "x.", "plain", ".a.b", "..", "."] {
        let std_ext = std::path::Path::new(name)
            .extension()
            .map(|e| e.to_string_lossy().into_owned());
        assert_eq!(extension_of(name), std_ext, "name {name}");
    }
}

#[test]
fn json_file_names() {
    assert!(has_json_extension("Bass Enhancing.json"));
    assert!(!has_json_extension("Dolby Atmos.irs"));
    assert!(!has_json_extension(".json"));
    assert!(!has_json_extension("x.JSON"));
}
