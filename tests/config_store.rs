use server_switch::config::{config_text, load_url, ConfigStore, CONFIG_FILE_NAME, DEFAULT_URL};

#[test]
fn default_url_literal() {
    assert_eq!(DEFAULT_URL, "https://smartyapp.piltismart.com");
    assert_eq!(CONFIG_FILE_NAME, "settings.json");
}

#[test]
fn missing_file_gives_default() {
    let store = ConfigStore::empty();
    assert_eq!(store.load(), "https://smartyapp.piltismart.com");
    assert_eq!(load_url(None), "https://smartyapp.piltismart.com");
}

#[test]
fn invalid_json_gives_default() {
    assert_eq!(load_url(Some("not json {")), DEFAULT_URL);
    assert_eq!(load_url(Some("")), DEFAULT_URL);
    assert_eq!(load_url(Some("{\"url\": \"https://a.example\"")), DEFAULT_URL);
}

#[test]
fn missing_url_field_gives_default() {
    assert_eq!(load_url(Some("{}")), DEFAULT_URL);
    assert_eq!(load_url(Some("{\"server\":\"https://a.example\"}")), DEFAULT_URL);
    assert_eq!(load_url(Some("{\"url\":42}")), DEFAULT_URL);
    assert_eq!(load_url(Some("\"https://a.example\"")), DEFAULT_URL);
}

#[test]
fn record_with_spacing_and_other_keys_loads() {
    let text = "{ \"theme\": \"dark\",\n  \"url\" : \"https://b.example/x\" }";
    assert_eq!(load_url(Some(text)), "https://b.example/x");
}

#[test]
fn config_text_is_compact_json_record() {
    assert_eq!(config_text("https://a.example/c"), "{\"url\":\"https://a.example/c\"}");
}

#[test]
fn config_text_escapes_the_url() {
    assert_eq!(config_text("a\"b\\c"), "{\"url\":\"a\\\"b\\\\c\"}");
}

#[test]
fn save_then_load_round_trip() {
    let urls = [
        "https://example.com",
        "https://example.com:8443/app",
        "http://localhost:3000/path/to/page?x=1&y=two#frag",
        "https://user:pw@host.example/a%20b?q=\"quoted\"",
        "https://例え.jp/パス",
    ];
    for u in urls {
        let mut store = ConfigStore::empty();
        store.save(u);
        assert_eq!(store.load(), u);
    }
}

#[test]
fn save_overwrites_previous_record() {
    let mut store = ConfigStore::new(Some("garbage".to_string()));
    store.save("https://first.example");
    store.save("https://second.example/");
    assert_eq!(store.load(), "https://second.example/");
    assert_eq!(store.contents(), Some("{\"url\":\"https://second.example/\"}"));
}
