use yomimado::{
    check_popup_region, overlay_page, popup_page, popup_state_json, translation_popup_query,
};

#[test]
fn translation_popup_navigation_preserves_new_ocr_text() {
    let mut url = url::Url::parse("http://localhost:1420/index.html?mode=translation")
        .expect("valid app URL");
    url.set_query(Some(&translation_popup_query("たまにはいいでしょ", false)));

    let state = url
        .query_pairs()
        .find(|(key, _)| key == "state")
        .map(|(_, value)| value.into_owned())
        .expect("popup state");
    let state: serde_json::Value = serde_json::from_str(&state).expect("JSON popup state");
    assert_eq!(state["text"], "たまにはいいでしょ");
    assert_eq!(state["demo"], false);
}

#[test]
fn popup_state_is_compact_json_with_sorted_keys() {
    assert_eq!(popup_state_json("hi", true), "{\"demo\":true,\"text\":\"hi\"}");
    assert_eq!(
        popup_state_json("a\"b\\c\nd\u{1}", false),
        "{\"demo\":false,\"text\":\"a\\\"b\\\\c\\nd\\u0001\"}"
    );
}

#[test]
fn popup_query_percent_encodes_the_state() {
    assert_eq!(
        translation_popup_query("a b", false),
        "mode=translation&state=%7B%22demo%22%3Afalse%2C%22text%22%3A%22a%20b%22%7D"
    );
    let query = translation_popup_query("é&=+#", true);
    let value = &query["mode=translation&state=".len()..];
    assert!(!value.contains('&') && !value.contains('=') && !value.contains('+'));
    assert!(value.contains("%C3%A9"));
}

#[test]
fn popup_query_round_trips_hostile_text() {
    let text = "line1\nline2\t\"quoted\" & a=b + c # d \\ \u{7f} 漢字";
    let mut url = url::Url::parse("http://localhost:1420/index.html").unwrap();
    url.set_query(Some(&translation_popup_query(text, true)));
    let state = url
        .query_pairs()
        .find(|(key, _)| key == "state")
        .map(|(_, value)| value.into_owned())
        .unwrap();
    let state: serde_json::Value = serde_json::from_str(&state).unwrap();
    assert_eq!(state["text"], text);
    assert_eq!(state["demo"], true);
}

#[test]
fn popup_region_needs_a_polygon_on_a_non_empty_image() {
    assert_eq!(check_popup_region(3, 200, 300), Ok(()));
    assert_eq!(check_popup_region(8, 1, 1), Ok(()));
    let message = "The selected OCR region has no usable geometry".to_string();
    assert_eq!(check_popup_region(2, 200, 300), Err(message.clone()));
    assert_eq!(check_popup_region(3, 0, 300), Err(message.clone()));
    assert_eq!(check_popup_region(3, 200, 0), Err(message));
}

#[test]
fn overlay_and_popup_pages() {
    assert_eq!(
        overlay_page("{\"a\":1}"),
        "index.html?mode=overlay&state=%7B%22a%22%3A1%7D"
    );
    assert_eq!(popup_page("mode=translation&state=x"), "index.html?mode=translation&state=x");
}
