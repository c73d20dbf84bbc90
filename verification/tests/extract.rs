use gems::utils::{extract_text_from_partial_json, find_closing_quote};

#[test]
fn buffer_without_marker_gives_nothing() {
    assert_eq!(extract_text_from_partial_json(""), None);
    assert_eq!(extract_text_from_partial_json("{\"role\": \"model\"}"), None);
    assert_eq!(extract_text_from_partial_json("\"text\":\"hello\""), None);
    assert_eq!(extract_text_from_partial_json("\"text\": "), None);
    assert_eq!(extract_text_from_partial_json("\"Text\": \"hello\""), None);
}

#[test]
fn closed_value_is_returned_exactly() {
    assert_eq!(
        extract_text_from_partial_json("{\"text\": \"hello\""),
        Some("hello".to_string())
    );
}

#[test]
fn sample_text_is_extracted() {
    let partial_json = r#"{"text": "sample_text""#;
    let extracted_text = extract_text_from_partial_json(partial_json);
    assert_eq!(extracted_text, Some("sample_text".to_owned()));
}

#[test]
fn unclosed_value_gives_nothing() {
    assert_eq!(extract_text_from_partial_json("{\"text\": \"hello"), None);
    assert_eq!(extract_text_from_partial_json("{\"text\": \""), None);
}

#[test]
fn marker_split_across_chunks_is_lost_in_both() {
    let first = "[{\"candidates\": [{\"content\": {\"parts\": [{\"te";
    let second = "xt\": \"hi\"}]}}]}]";
    assert_eq!(extract_text_from_partial_json(first), None);
    assert_eq!(extract_text_from_partial_json(second), None);
    let whole = format!("{}{}", first, second);
    assert_eq!(
        extract_text_from_partial_json(&whole),
        Some("hi".to_string())
    );
}

#[test]
fn value_split_across_chunks_is_lost_in_both() {
    assert_eq!(extract_text_from_partial_json("{\"text\": \"Hel"), None);
    assert_eq!(extract_text_from_partial_json("lo\"}"), None);
}

#[test]
fn empty_value_is_an_empty_text() {
    assert_eq!(
        extract_text_from_partial_json("{\"text\": \"\"}"),
        Some(String::new())
    );
}

#[test]
fn only_the_first_marker_counts() {
    assert_eq!(
        extract_text_from_partial_json("{\"text\": \"one\"}, {\"text\": \"two\"}"),
        Some("one".to_string())
    );
}

#[test]
fn escaped_quote_does_not_close_the_value() {
    assert_eq!(
        extract_text_from_partial_json("{\"text\": \"say \\\"hi\\\" now\"}"),
        Some("say \\\"hi\\\" now".to_string())
    );
}

#[test]
fn escaped_backslash_before_quote_closes_the_value() {
    assert_eq!(
        extract_text_from_partial_json("{\"text\": \"path\\\\\"}"),
        Some("path\\\\".to_string())
    );
}

#[test]
fn value_that_ends_in_an_escaped_quote_is_unclosed() {
    assert_eq!(extract_text_from_partial_json("{\"text\": \"abc\\\""), None);
    assert_eq!(extract_text_from_partial_json("{\"text\": \"abc\\"), None);
}

#[test]
fn value_keeps_characters_beyond_ascii() {
    assert_eq!(
        extract_text_from_partial_json("{\"text\": \"héllo → 世界\"}"),
        Some("héllo → 世界".to_string())
    );
}

#[test]
fn closing_quote_is_searched_from_the_index_given() {
    let buffer: Vec<char> = "a\"b\\\"c\"".chars().collect();
    assert_eq!(find_closing_quote(&buffer, 0), Some(1));
    assert_eq!(find_closing_quote(&buffer, 2), Some(6));
    assert_eq!(find_closing_quote(&buffer, 7), None);
    assert_eq!(find_closing_quote(&buffer, 100), None);
}
