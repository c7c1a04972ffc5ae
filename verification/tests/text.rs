use ilias_client::client::file_storage_provider::FileStorageProvider;
use ilias_client::local_file::NamedLocalFile;
use ilias_client::text::{
    contains_sub, find_sub, parse_decimal_u32, str_eq, swap_comma_name, transliterate, trim_str,
};

#[test]
fn substring_search() {
    assert_eq!(find_sub("abcabc", "bc"), Some(1));
    assert_eq!(find_sub("abcabc", "cb"), None);
    assert_eq!(find_sub("abc", ""), Some(0));
    assert!(contains_sub("ilias.php?cmd=delete", "cmd=delete"));
    assert!(!contains_sub("ilias.php?cmd=edit", "cmd=delete"));
}

#[test]
fn string_equality() {
    assert!(str_eq("Mär", "Mär"));
    assert!(!str_eq("Mär", "Mar"));
    assert!(!str_eq("ab", "abc"));
}

#[test]
fn decimal_parsing() {
    assert_eq!(parse_decimal_u32("0"), Some(0));
    assert_eq!(parse_decimal_u32("4095"), Some(4095));
    assert_eq!(parse_decimal_u32(""), None);
    assert_eq!(parse_decimal_u32("12a"), None);
    assert_eq!(parse_decimal_u32("4294967295"), Some(u32::MAX));
    assert_eq!(parse_decimal_u32("4294967296"), None);
}

#[test]
fn trimming() {
    assert_eq!(trim_str("  x y\t\n"), "x y");
    assert_eq!(trim_str("   "), "");
    assert_eq!(trim_str("plain"), "plain");
}

#[test]
fn transliteration() {
    assert_eq!(transliterate("Müßig"), "Muessig");
    assert_eq!(transliterate("ÄÖÜäöüß"), "AeOeUeaeoeuess");
    assert_eq!(transliterate("plain"), "plain");
}

#[test]
fn comma_name_swap() {
    assert_eq!(swap_comma_name("Mustermann, Max"), "Max_Mustermann");
    assert_eq!(swap_comma_name("Mononym"), "Mononym");
    assert_eq!(swap_comma_name("a, b, c"), "b, c_a");
}

#[test]
fn storage_provider_keeps_its_path() {
    let p = FileStorageProvider::new("/tmp/download.zip".to_string());
    assert_eq!(p.0, "/tmp/download.zip");
}

#[test]
fn named_local_file_is_plain_data() {
    let f = NamedLocalFile { name: "report.pdf".to_string(), path: "/tmp/report.pdf".to_string() };
    let g = f.clone();
    assert_eq!(g.name, "report.pdf");
    assert_eq!(g.path, "/tmp/report.pdf");
}
