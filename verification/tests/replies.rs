use frame_moderator::locator::SourceLocator;
use frame_moderator::error::PipelineError;
use frame_moderator::reply::{clean_reply, read_response, read_verdict, verdict_from_fields, AttemptOutcome};
use frame_moderator::request::{endpoint, image_data_url, model, system_instruction};
use frame_moderator::text::{
    decimal_text, find_first, find_last, has_prefix, has_suffix, is_whitespace, same_text, trim,
    trim_leading, trim_trailing,
};
use frame_moderator::verdict::{ModerationVerdict, Rating};

fn verdict(description: &str, rating: Rating) -> ModerationVerdict {
    ModerationVerdict { description: description.to_string(), rating }
}

#[test]
fn text_helpers() {
    assert_eq!(find_first("a_b_c", '_'), Some(1));
    assert_eq!(find_last("a_b_c", '_'), Some(3));
    assert_eq!(find_first("abc", '_'), None);
    assert_eq!(find_last("", '_'), None);
    assert_eq!(find_last("é/x", '/'), Some(1));
    assert!(has_prefix("```json", "```"));
    assert!(!has_prefix("``", "```"));
    assert!(has_prefix("abc", ""));
    assert!(has_suffix("abc```", "```"));
    assert!(!has_suffix("abc``", "```"));
    assert!(same_text("PG-13", "PG-13"));
    assert!(!same_text("PG-13", "PG-1"));
    assert!(!same_text("PG", "pg"));
    assert_eq!(trim("  \t a b \n\u{3000}"), "a b");
    assert_eq!(trim(" \u{a0} "), "");
    assert_eq!(trim("\u{200b}x"), "\u{200b}x");
    assert_eq!(trim_leading("ababc", "ab"), "c");
    assert_eq!(trim_leading("abc", ""), "abc");
    assert_eq!(trim_trailing("cabab", "ab"), "c");
    assert_eq!(trim_trailing("abab", "ab"), "");
}

#[test]
fn white_space_is_what_std_says() {
    for n in 0u32..0x3100 {
        if let Some(c) = char::from_u32(n) {
            assert_eq!(is_whitespace(c), c.is_whitespace(), "{:x}", n);
        }
    }
}

#[test]
fn trimming_agrees_with_std() {
    for s in ["", " ", "a", " a", "a ", "\n{\"a\":1}\n", "``` x ```", "```json```json x", "x``````", "`", "````"] {
        assert_eq!(trim(s), s.trim());
        assert_eq!(trim_leading(s, "```json"), s.trim_start_matches("```json"));
        assert_eq!(trim_leading(s, "```"), s.trim_start_matches("```"));
        assert_eq!(trim_trailing(s, "```"), s.trim_end_matches("```"));
    }
}

#[test]
fn numbers_are_written_in_base_ten() {
    assert_eq!(decimal_text(0), "0");
    assert_eq!(decimal_text(7), "7");
    assert_eq!(decimal_text(10), "10");
    assert_eq!(decimal_text(4294967296), "4294967296");
    assert_eq!(decimal_text(u64::MAX), "18446744073709551615");
}

#[test]
fn ratings_have_five_labels() {
    for (rating, label) in [
        (Rating::G, "G"),
        (Rating::PG, "PG"),
        (Rating::PG13, "PG-13"),
        (Rating::R, "R"),
        (Rating::Inappropriate, "Inappropriate"),
    ] {
        assert_eq!(rating.as_str(), label);
        assert_eq!(Rating::parse(label), Some(rating));
    }
    assert_eq!(Rating::parse("pg"), None);
    assert_eq!(Rating::parse("PG13"), None);
    assert_eq!(Rating::parse(""), None);
    assert_eq!(Rating::parse(" G"), None);
}

#[test]
fn fallback_verdicts() {
    assert_eq!(
        ModerationVerdict::unreadable("oops"),
        verdict("Parsing error in response: oops", Rating::Inappropriate)
    );
    assert_eq!(
        ModerationVerdict::exhausted("connection refused", 4),
        verdict("Error: connection refused (after 4 attempts)", Rating::Inappropriate)
    );
    let v = verdict("a", Rating::R);
    assert_eq!(v.duplicate(), v);
}

#[test]
fn a_fence_is_taken_off() {
    assert_eq!(clean_reply("```json\n{\"a\":1}\n```"), "{\"a\":1}");
    assert_eq!(clean_reply("```\n{\"a\":1}\n```"), "{\"a\":1}");
    assert_eq!(clean_reply("  {\"a\":1}\n"), "{\"a\":1}");
    assert_eq!(clean_reply("```json```json x ``````"), "x");
    assert_eq!(clean_reply(" ```json x```"), "```json x```");
    assert_eq!(clean_reply("```json"), "");
    assert_eq!(clean_reply(""), "");
}

#[test]
fn a_fenced_reply_reads_as_the_bare_one() {
    let bare = "{\"description\": \"A cat on a sofa\", \"rating\": \"G\"}";
    let fenced = format!("```json\n{}\n```", bare);
    let expected = verdict("A cat on a sofa", Rating::G);
    assert_eq!(read_verdict(bare), expected);
    assert_eq!(read_verdict(&fenced), expected);
    assert_eq!(read_verdict(&format!("```\n{}\n```", bare)), expected);
    assert_eq!(read_verdict(&format!("```json{}```", bare)), expected);
    for body in ["", "not json", " \n", "{\"rating\":\"R\",\"description\":\"x\"}", "[1,2]"] {
        assert_eq!(read_verdict(&format!("```json{}```", body)), read_verdict(body));
    }
}

#[test]
fn every_rating_is_read() {
    for (label, rating) in [("G", Rating::G), ("PG", Rating::PG), ("PG-13", Rating::PG13), ("R", Rating::R), ("Inappropriate", Rating::Inappropriate)] {
        let reply = format!("{{\"rating\": \"{}\", \"description\": \"d\", \"extra\": 1}}", label);
        assert_eq!(read_verdict(&reply), verdict("d", rating));
    }
}

#[test]
fn an_unreadable_reply_is_quoted() {
    let v = read_verdict("I cannot help with that.");
    assert_eq!(v.rating, Rating::Inappropriate);
    assert_eq!(v.description, "Parsing error in response: I cannot help with that.");
    let w = read_verdict("```json\n{\"description\": \n```");
    assert_eq!(w.rating, Rating::Inappropriate);
    assert_eq!(w.description, "Parsing error in response: {\"description\":");
    assert!(!w.description.is_empty());
    assert_eq!(read_verdict(""), verdict("Parsing error in response: ", Rating::Inappropriate));
}

#[test]
fn a_reply_without_both_fields_is_quoted() {
    for reply in [
        "{\"description\": \"x\"}",
        "{\"rating\": \"G\"}",
        "{\"description\": 5, \"rating\": \"G\"}",
        "{\"description\": \"x\", \"rating\": 3}",
        "{\"description\": \"x\", \"rating\": \"X\"}",
        "{\"description\": \"x\", \"rating\": \"g\"}",
        "[\"x\", \"G\"]",
        "\"G\"",
        "null",
    ] {
        let v = read_verdict(reply);
        assert_eq!(v.rating, Rating::Inappropriate, "{}", reply);
        assert_eq!(v.description, format!("Parsing error in response: {}", reply));
    }
}

#[test]
fn fields_decide_the_verdict() {
    assert_eq!(
        verdict_from_fields("c", Some("d".to_string()), Some("PG-13".to_string())),
        verdict("d", Rating::PG13)
    );
    assert_eq!(
        verdict_from_fields("c", Some("d".to_string()), Some("NC-17".to_string())),
        verdict("Parsing error in response: c", Rating::Inappropriate)
    );
    assert_eq!(
        verdict_from_fields("c", None, Some("G".to_string())),
        verdict("Parsing error in response: c", Rating::Inappropriate)
    );
    assert_eq!(
        verdict_from_fields("c", Some("d".to_string()), None),
        verdict("Parsing error in response: c", Rating::Inappropriate)
    );
    assert_eq!(verdict_from_fields("", None, None), verdict("Parsing error in response: ", Rating::Inappropriate));
}

#[test]
fn a_response_carries_the_reply() {
    let body = "{\"id\":\"1\",\"choices\":[{\"index\":0,\"message\":{\"role\":\"assistant\",\"content\":\"```json\\n{\\\"description\\\": \\\"A beach\\\", \\\"rating\\\": \\\"PG\\\"}\\n```\"}}]}";
    match read_response(body) {
        AttemptOutcome::Answered(v) => assert_eq!(v, verdict("A beach", Rating::PG)),
        AttemptOutcome::Failed(e) => panic!("{}", e),
    }
}

#[test]
fn a_response_without_a_reply_reads_as_an_empty_reply() {
    for body in ["{}", "{\"choices\":[]}", "{\"choices\":[{\"message\":{\"content\":null}}]}", "{\"error\":\"rate limited\"}", "[]", "3"] {
        match read_response(body) {
            AttemptOutcome::Answered(v) => {
                assert_eq!(v, verdict("Parsing error in response: ", Rating::Inappropriate), "{}", body)
            }
            AttemptOutcome::Failed(e) => panic!("{}", e),
        }
    }
}

#[test]
fn a_response_that_is_no_json_is_a_failed_attempt() {
    for body in ["", "<html>502</html>", "{\"choices\":", "{} {}"] {
        match read_response(body) {
            AttemptOutcome::Answered(v) => panic!("{:?}", v),
            AttemptOutcome::Failed(e) => assert!(!e.is_empty()),
        }
    }
    match read_response("{\"a\":") {
        AttemptOutcome::Failed(e) => assert_eq!(e, "EOF while parsing a value at line 1 column 5"),
        AttemptOutcome::Answered(v) => panic!("{:?}", v),
    }
}

#[test]
fn an_image_goes_out_as_a_data_url() {
    assert_eq!(image_data_url(b"hello"), "data:image/jpeg;base64,aGVsbG8=");
    assert_eq!(image_data_url(b""), "data:image/jpeg;base64,");
    assert_eq!(image_data_url(&[0xff, 0xd8, 0xff, 0xe0]), "data:image/jpeg;base64,/9j/4A==");
    assert_eq!(image_data_url(&[0xfb, 0xef, 0xbe]), "data:image/jpeg;base64,++++");
}

#[test]
fn the_request_is_fixed() {
    assert_eq!(endpoint(), "https://api.x.ai/v1/chat/completions");
    assert_eq!(model(), "grok-2-vision-latest");
    assert!(system_instruction().starts_with("You are an image moderator."));
    assert!(system_instruction().contains("'description'"));
    assert!(system_instruction().contains("'G', 'PG', 'PG-13', 'R', or 'Inappropriate'"));
    assert!(system_instruction().ends_with("strictly valid JSON without any additional text."));
}

#[test]
fn a_locator_is_an_absolute_url() {
    let locator = SourceLocator::parse("https://example.com").unwrap();
    assert_eq!(locator.as_str(), "https://example.com/");
    let other = SourceLocator::parse("HTTP://Example.COM:80/a b?x=1#f").unwrap();
    assert_eq!(other.as_str(), "http://example.com/a%20b?x=1#f");
}

#[test]
fn a_text_that_is_no_url_is_invalid_input() {
    match SourceLocator::parse("not a url") {
        Err(PipelineError::InvalidInput(m)) => assert_eq!(m, "Invalid URL: relative URL without a base"),
        other => panic!("{:?}", other),
    }
    match SourceLocator::parse("") {
        Err(PipelineError::InvalidInput(m)) => assert_eq!(m, "Invalid URL: relative URL without a base"),
        other => panic!("{:?}", other),
    }
    match SourceLocator::parse("http://") {
        Err(PipelineError::InvalidInput(m)) => assert_eq!(m, "Invalid URL: empty host"),
        other => panic!("{:?}", other),
    }
    let e = SourceLocator::parse("/only/a/path").unwrap_err();
    assert_eq!(e.message(), "Invalid URL: relative URL without a base");
    assert_eq!(e.duplicate(), e);
}
