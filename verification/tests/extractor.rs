use core_daemon::extractor::{extension_of_file_name, path_extension, trim};
use core_daemon::extractor::{
    finish_extracted_text, plain_text_from_bytes, supported_text_kind, text_kind_for_extension,
    TextKind,
};

#[test]
fn supported_kinds_by_extension() {
    assert_eq!(supported_text_kind("/home/u/notes.txt"), Some(TextKind::Plain));
    assert_eq!(supported_text_kind("README.MD"), Some(TextKind::Plain));
    assert_eq!(supported_text_kind("C:/docs/Report.PdF"), Some(TextKind::Pdf));
    assert_eq!(supported_text_kind("photo.jpeg"), None);
    assert_eq!(supported_text_kind("Makefile"), None);
    assert_eq!(supported_text_kind(".md"), None);
    assert_eq!(supported_text_kind("archive.tar.txt"), Some(TextKind::Plain));
    assert_eq!(supported_text_kind("dir.txt/file"), None);
    assert_eq!(supported_text_kind(""), None);
}

#[test]
fn lowercased_extensions() {
    assert_eq!(text_kind_for_extension("md"), Some(TextKind::Plain));
    assert_eq!(text_kind_for_extension("pdf"), Some(TextKind::Pdf));
    assert_eq!(text_kind_for_extension("PDF"), None);
    assert_eq!(text_kind_for_extension(""), None);
}

#[test]
fn extracted_text_is_trimmed_and_blank_is_dropped() {
    assert_eq!(finish_extracted_text("  hello world \n"), Some("hello world".to_string()));
    assert_eq!(finish_extracted_text(" \t\n "), None);
    assert_eq!(finish_extracted_text(""), None);
    assert_eq!(finish_extracted_text("\u{a0}\u{3000}x y\u{2029}\u{85}"), Some("x y".to_string()));
    assert_eq!(finish_extracted_text("\u{200b}x"), Some("\u{200b}x".to_string()));
    assert_eq!(plain_text_from_bytes(b"\n# Title\n"), Some("# Title".to_string()));
    assert_eq!(plain_text_from_bytes(b"   "), None);
    assert_eq!(plain_text_from_bytes(&[b'a', 0xff, b'b']), Some("a\u{fffd}b".to_string()));
}

#[test]
fn extension_and_trim_rules() {
    assert_eq!(extension_of_file_name("a.tar.gz"), Some("gz".to_string()));
    assert_eq!(extension_of_file_name(".bashrc"), None);
    assert_eq!(extension_of_file_name("a."), Some("".to_string()));
    assert_eq!(extension_of_file_name("..b"), Some("b".to_string()));
    assert_eq!(extension_of_file_name("noext"), None);
    assert_eq!(path_extension("/x/y/notes.MD"), Some("MD".to_string()));
    assert_eq!(path_extension("/x/.hidden"), None);
    assert_eq!(trim(" \t a b \u{3000}"), "a b");
    assert_eq!(trim("\u{2000}\u{200a}"), "");
    assert_eq!(trim("x"), "x");
}
