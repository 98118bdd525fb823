use crest_player::search::{
    build_search_term, entry_of_value, parse_entry, parse_search_results, search_youtube, Ran,
    RESULT_LIMIT,
};

fn s(text: &str) -> String {
    text.to_string()
}

#[test]
fn entry_needs_title_and_id() {
    assert_eq!(
        parse_entry(r#"{"id": "abc12345678", "title": "Song A", "duration": 215}"#),
        Some((s("Song A"), s("abc12345678")))
    );
    assert_eq!(parse_entry(r#"{"title": "Song A"}"#), None);
    assert_eq!(parse_entry(r#"{"id": "abc12345678"}"#), None);
    assert_eq!(parse_entry(r#"{}"#), None);
}

#[test]
fn entry_of_a_line_that_is_no_document() {
    assert_eq!(parse_entry("not json"), None);
    assert_eq!(parse_entry(""), None);
    assert_eq!(parse_entry(r#"{"title": "a", "id": "b"} trailing"#), None);
    assert_eq!(parse_entry(r#"{"title": "a", "id": "b""#), None);
}

#[test]
fn entry_of_a_document_that_is_no_object() {
    assert_eq!(parse_entry(r#"["title", "id"]"#), None);
    assert_eq!(parse_entry(r#""title""#), None);
    assert_eq!(parse_entry("42"), None);
    assert_eq!(parse_entry("null"), None);
}

#[test]
fn member_that_is_no_string_counts_as_empty() {
    assert_eq!(parse_entry(r#"{"title": 5, "id": "abc"}"#), Some((s(""), s("abc"))));
    assert_eq!(parse_entry(r#"{"title": "T", "id": null}"#), Some((s("T"), s(""))));
    assert_eq!(parse_entry(r#"{"title": ["T"], "id": {"x": 1}}"#), Some((s(""), s(""))));
}

#[test]
fn entry_text_is_unescaped() {
    assert_eq!(
        parse_entry(r#"{"title": "Caf\u00e9 \"live\"\n", "id": "a\/b"}"#),
        Some((s("Caf\u{e9} \"live\"\n"), s("a/b")))
    );
}

#[test]
fn entry_of_a_value() {
    let value: serde_json::Value = serde_json::from_str(r#"{"title": "T", "id": "I"}"#).unwrap();
    assert_eq!(entry_of_value(&value), Some((s("T"), s("I"))));
    let mut members = serde_json::Map::new();
    members.insert(s("title"), serde_json::Value::String(s("Only")));
    assert_eq!(entry_of_value(&serde_json::Value::Object(members.clone())), None);
    members.insert(s("id"), serde_json::Value::Bool(true));
    assert_eq!(entry_of_value(&serde_json::Value::Object(members)), Some((s("Only"), s(""))));
    assert_eq!(entry_of_value(&serde_json::Value::Null), None);
    assert_eq!(entry_of_value(&serde_json::Value::String(s("title"))), None);
}

#[test]
fn results_follow_the_lines() {
    let output = [
        "{\"id\": \"id1\", \"title\": \"One\"}\n",
        "WARNING: something\n",
        "{\"id\": \"id2\", \"title\": \"Two\"}\r\n",
        "\n",
        "{\"title\": \"No id\"}\n",
        "{\"id\": \"id3\", \"title\": \"Three\"}",
    ]
    .join("");
    let output = output.as_str();
    assert_eq!(
        parse_search_results(output),
        vec![(s("One"), s("id1")), (s("Two"), s("id2")), (s("Three"), s("id3"))]
    );
    assert!(parse_search_results("").is_empty());
    assert!(parse_search_results("garbage\nmore garbage\n").is_empty());
}

#[test]
fn results_stop_at_the_limit() {
    assert_eq!(RESULT_LIMIT, 20);
    let mut output = String::new();
    for i in 0..25 {
        output.push_str(&format!("{{\"id\": \"id{}\", \"title\": \"Song {}\"}}\n", i, i));
        output.push_str("noise\n");
    }
    let results = parse_search_results(&output);
    assert_eq!(results.len(), 20);
    for (i, (title, id)) in results.iter().enumerate() {
        assert_eq!(title, &format!("Song {}", i));
        assert_eq!(id, &format!("id{}", i));
    }
    let mut exact = String::new();
    for i in 0..20 {
        exact.push_str(&format!("{{\"id\": \"{}\", \"title\": \"t\"}}\n", i));
    }
    assert_eq!(parse_search_results(&exact).len(), 20);
}

#[test]
fn search_term_asks_for_twenty() {
    assert_eq!(build_search_term("daft punk"), "ytsearch20:daft punk");
    assert_eq!(build_search_term(""), "ytsearch20:");
}

#[test]
fn search_outcomes() {
    assert_eq!(
        search_youtube(&Ran::Failed(s("No such file or directory (os error 2)"))),
        Err(s("yt-dlp failed: No such file or directory (os error 2)"))
    );
    assert_eq!(
        search_youtube(&Ran::Exited { success: false, output: s("{\"id\": \"a\", \"title\": \"b\"}") }),
        Err(s("yt-dlp search failed"))
    );
    assert_eq!(
        search_youtube(&Ran::Exited { success: true, output: s("{\"id\": \"a\", \"title\": \"b\"}\n") }),
        Ok(vec![(s("b"), s("a"))])
    );
    assert_eq!(search_youtube(&Ran::Exited { success: true, output: s("") }), Ok(vec![]));
}
