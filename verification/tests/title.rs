use gateway_pages::chat::title::{
    clean_title, completions_url, read_reply, strip_think_block, title_request, upstream_error,
    MAX_TITLE_LEN,
};

#[test]
fn clean_title_strips_quotes_and_caps_length() {
    assert_eq!(clean_title(r#""Hello World""#), "Hello World");
    assert_eq!(clean_title("  *Foo Bar*  "), "Foo Bar");
    assert_eq!(clean_title("title: Some Name."), "title: Some Name");
    let long: String = "x".repeat(200);
    assert_eq!(clean_title(&long).len(), MAX_TITLE_LEN);
}

#[test]
fn clean_title_clips_to_word_cap() {
    assert_eq!(
        clean_title("Alpha Beta Gamma Delta Epsilon Zeta Eta"),
        "Alpha Beta Gamma Delta Epsilon"
    );
}

#[test]
fn clean_title_char_cap_falls_back_to_word_boundary() {
    let raw = "Testing Session Title Generation Functionality";
    let out = clean_title(raw);
    assert!(
        out.len() <= MAX_TITLE_LEN,
        "len {} should be <= {}",
        out.len(),
        MAX_TITLE_LEN
    );
    assert!(
        !out.ends_with("Functio"),
        "should not slice mid-word: {out:?}"
    );
    assert_eq!(out, "Testing Session Title Generation");
}

#[test]
fn clean_title_takes_first_non_empty_line() {
    assert_eq!(
        clean_title("\n\nFirst Real Line\n\nrest"),
        "First Real Line"
    );
}

#[test]
fn clean_title_strips_think_block() {
    let raw = "<think>let me think about this</think>\n\nActual Title";
    assert_eq!(clean_title(raw), "Actual Title");
}

#[test]
fn clean_title_case_insensitive_think_tags() {
    let raw = "<THINK>internal</THINK>\nThe Title";
    assert_eq!(clean_title(raw), "The Title");
}

#[test]
fn clean_title_passes_through_when_only_open_tag() {
    let raw = "<think>oops no close\nbut this is the title";
    assert!(clean_title(raw).contains("<think>"));
}

#[test]
fn strip_think_block_no_tags() {
    assert_eq!(strip_think_block("plain text"), "plain text");
}

#[test]
fn strip_think_block_handles_attributes() {
    let s = r#"<think foo="bar">x</think>rest"#;
    assert!(strip_think_block(s).contains("<think"));
}

#[test]
fn strip_think_block_keeps_both_sides() {
    assert_eq!(strip_think_block("a<think>b</think>c"), "ac");
    assert_eq!(strip_think_block("a</think>b<think>c"), "a</think>b<think>c");
}

#[test]
fn clean_title_of_nothing_is_nothing() {
    assert_eq!(clean_title(""), "");
    assert_eq!(clean_title(" \n \t\n"), "");
    assert_eq!(clean_title("\"\"..."), "");
}

#[test]
fn clean_title_handles_carriage_returns_and_wide_characters() {
    assert_eq!(clean_title("\r\n  Grüße\u{a0}aus Köln!\r\nmehr"), "Grüße aus Köln");
    assert_eq!(clean_title(&"ä".repeat(50)).chars().count(), MAX_TITLE_LEN);
}

#[test]
fn title_request_escapes_the_message() {
    let body = title_request("m\"1", "say \"hi\"\n\u{1}");
    let v: serde_json::Value = serde_json::from_str(&body).unwrap();
    assert_eq!(v["model"], "m\"1");
    assert_eq!(v["messages"][1]["content"], "say \"hi\"\n\u{1}\n\n/no_think");
    assert_eq!(v["messages"][0]["role"], "system");
    assert_eq!(v["chat_template_kwargs"]["enable_thinking"], false);
    assert_eq!(v["max_tokens"], 256);
    assert_eq!(serde_json::to_string(&v).unwrap(), body);
}

#[test]
fn reply_is_read_by_pointer() {
    let raw = r#"{"choices":[{"message":{"content":"T"},"finish_reason":"stop"}]}"#;
    let reply = read_reply(raw.as_bytes()).unwrap();
    assert_eq!(reply.content, "T");
    assert_eq!(reply.reasoning_content, "");
    assert_eq!(reply.finish_reason, "stop");
    assert!(read_reply(b"not json").is_none());
    assert_eq!(read_reply(b"{}").unwrap().content, "");
}

#[test]
fn upstream_words() {
    assert_eq!(completions_url("http://h/v1"), "http://h/v1/chat/completions");
    let long = "y".repeat(200);
    assert_eq!(
        upstream_error("500", long.as_bytes()),
        format!("upstream 500: {}", "y".repeat(120))
    );
    assert_eq!(upstream_error("502", b"bad \xff"), "upstream 502: bad \u{fffd}");
}

#[test]
fn a_cut_at_the_end_of_a_word_keeps_the_word() {
    let whole = "a".repeat(19) + " " + &"b".repeat(20);
    assert_eq!(clean_title(&(whole.clone() + " c")), whole);
    assert_eq!(clean_title(&(whole.clone() + "b")), "a".repeat(19));
    let blank = "a".repeat(19) + " " + &"b".repeat(19);
    assert_eq!(clean_title(&(blank.clone() + " cc")), blank);
}

#[test]
fn surrounding_colons_are_dropped() {
    assert_eq!(clean_title(":Foo"), "Foo");
    assert_eq!(clean_title(": \"Foo\" :"), "Foo");
    assert_eq!(clean_title("a:b"), "a:b");
}
