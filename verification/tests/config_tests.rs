use wakatime_status::config::read_config;

#[test]
fn both_keys_present() {
    let text = "[settings]\napi_key = waka_abc123\napi_url = https://api.example.com\n";
    let creds = read_config(text).expect("credential pair expected");
    assert_eq!(creds.api_key, "waka_abc123");
    assert_eq!(creds.api_url, "https://api.example.com");
}

#[test]
fn key_order_does_not_matter() {
    let a = "[settings]\napi_key = k1\napi_url = u1\n";
    let b = "[settings]\napi_url = u1\napi_key = k1\n";
    let ca = read_config(a).expect("credential pair expected");
    let cb = read_config(b).expect("credential pair expected");
    assert_eq!(ca, cb);
}

#[test]
fn bom_is_stripped() {
    let plain = "[settings]\napi_key = k\napi_url = u\n";
    let with_bom = "\u{feff}[settings]\napi_key = k\napi_url = u\n";
    let ca = read_config(plain).expect("credential pair expected");
    let cb = read_config(with_bom).expect("credential pair expected");
    assert_eq!(ca, cb);
}

#[test]
fn section_name_is_case_insensitive() {
    let text = "[Settings]\napi_key = k\napi_url = u\n";
    let creds = read_config(text).expect("credential pair expected");
    assert_eq!(creds.api_key, "k");
    assert_eq!(creds.api_url, "u");
}

#[test]
fn comments_and_other_sections_are_tolerated() {
    let text = "; a comment\n[other]\nx = 1\n[settings]\n# another comment\napi_key = k\napi_url = u\n";
    let creds = read_config(text).expect("credential pair expected");
    assert_eq!(creds.api_key, "k");
    assert_eq!(creds.api_url, "u");
}

#[test]
fn missing_section_yields_nothing() {
    let text = "[other]\napi_key = k\napi_url = u\n";
    assert_eq!(read_config(text), None);
}

#[test]
fn missing_api_key_yields_nothing() {
    let text = "[settings]\napi_url = u\n";
    assert_eq!(read_config(text), None);
}

#[test]
fn missing_api_url_yields_nothing() {
    let text = "[settings]\napi_key = k\n";
    assert_eq!(read_config(text), None);
}

#[test]
fn key_without_value_yields_nothing() {
    let text = "[settings]\napi_key\napi_url = u\n";
    assert_eq!(read_config(text), None);
}

#[test]
fn empty_text_yields_nothing() {
    assert_eq!(read_config(""), None);
}
