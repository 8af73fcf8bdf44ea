use coupon_api::authentication::codec::{
    decode, decode_payload, encode, find_char, split_pair, strip_scheme, try_encode, CodecError,
    DELIMITER,
};

#[test]
fn encode_gives_standard_base64_of_the_joined_pair() {
    assert_eq!(encode("abc", ""), "YWJjOg==");
    assert_eq!(encode("id", "payload"), "aWQ6cGF5bG9hZA==");
    assert_eq!(encode("", ""), "Og==");
}

#[test]
fn encode_differs_from_its_input() {
    let credential = encode("session", "");
    assert_ne!(credential, "session");
    assert_ne!(credential, "session:");
    assert_eq!(credential, "c2Vzc2lvbjo=");
}

#[test]
fn decode_reads_back_what_encode_wrote() {
    let id = "0f8fad5b-d9cb-469f-a165-70867728950e";
    let credential = encode(id, "");
    assert_eq!(decode(&credential), Ok((id.to_string(), String::new())));
}

#[test]
fn round_trip_keeps_a_payload_with_delimiters() {
    let credential = encode("id", "a:b:c");
    assert_eq!(decode(&credential), Ok(("id".to_string(), "a:b:c".to_string())));
}

#[test]
fn round_trip_keeps_text_outside_ascii() {
    let credential = encode("sessão", "日本語");
    assert_eq!(decode(&credential), Ok(("sessão".to_string(), "日本語".to_string())));
}

#[test]
fn an_id_with_a_delimiter_splits_at_the_first_one() {
    let credential = encode("a:b", "c");
    assert_eq!(decode(&credential), Ok(("a".to_string(), "b:c".to_string())));
}

#[test]
fn decode_accepts_the_scheme_label() {
    assert_eq!(decode("Bearer YWJjOg=="), Ok(("abc".to_string(), String::new())));
    assert_eq!(decode("YWJjOg=="), Ok(("abc".to_string(), String::new())));
}

#[test]
fn decode_drops_the_scheme_label_once_and_only_in_front() {
    assert_eq!(decode("Bearer Bearer YWJjOg=="), Err(CodecError::InvalidEncoding));
    assert_eq!(decode("YWJjOg==Bearer "), Err(CodecError::InvalidEncoding));
    assert_eq!(decode("bearer YWJjOg=="), Err(CodecError::InvalidEncoding));
}

#[test]
fn decode_rejects_text_outside_the_alphabet() {
    assert_eq!(decode("Bearer 💩"), Err(CodecError::InvalidEncoding));
    assert_eq!(decode("not base64!"), Err(CodecError::InvalidEncoding));
    assert_eq!(decode("YWJj Og=="), Err(CodecError::InvalidEncoding));
}

#[test]
fn decode_rejects_excess_padding() {
    assert_eq!(decode("YWJjOg==="), Err(CodecError::InvalidEncoding));
    assert_eq!(decode("YWJj===="), Err(CodecError::InvalidEncoding));
    assert_eq!(decode("="), Err(CodecError::InvalidEncoding));
}

#[test]
fn decode_rejects_a_text_cut_short() {
    assert_eq!(decode("YWJjO"), Err(CodecError::InvalidEncoding));
}

#[test]
fn decode_rejects_bytes_that_are_no_utf8() {
    // "/w==" stands for the single byte 0xff.
    assert_eq!(decode("/w=="), Err(CodecError::InvalidEncoding));
}

#[test]
fn decode_rejects_text_without_delimiter() {
    assert_eq!(decode("YWJj"), Err(CodecError::MissingDelimiter));
    assert_eq!(decode(""), Err(CodecError::MissingDelimiter));
    assert_eq!(decode("Bearer "), Err(CodecError::MissingDelimiter));
}

#[test]
fn decode_payload_checks_utf8_then_splits() {
    assert_eq!(decode_payload(b"a:b".to_vec()), Ok(("a".to_string(), "b".to_string())));
    assert_eq!(decode_payload(vec![0xff, b':']), Err(CodecError::InvalidEncoding));
    assert_eq!(decode_payload(vec![0xc3]), Err(CodecError::InvalidEncoding));
    assert_eq!(decode_payload(b"ab".to_vec()), Err(CodecError::MissingDelimiter));
    assert_eq!(decode_payload(Vec::new()), Err(CodecError::MissingDelimiter));
}

#[test]
fn split_pair_splits_at_the_first_delimiter() {
    assert_eq!(split_pair("ab:cd:e"), Ok(("ab".to_string(), "cd:e".to_string())));
    assert_eq!(split_pair(":"), Ok((String::new(), String::new())));
    assert_eq!(split_pair("é:ü"), Ok(("é".to_string(), "ü".to_string())));
    assert_eq!(split_pair("abc"), Err(CodecError::MissingDelimiter));
}

#[test]
fn find_char_counts_in_characters() {
    assert_eq!(find_char("ab:cd", DELIMITER), Some(2));
    assert_eq!(find_char("éé:", DELIMITER), Some(2));
    assert_eq!(find_char("a:b:c", DELIMITER), Some(1));
    assert_eq!(find_char("abc", DELIMITER), None);
    assert_eq!(find_char("", DELIMITER), None);
}

#[test]
fn strip_scheme_drops_the_label_in_front() {
    assert_eq!(strip_scheme("Bearer abc"), "abc");
    assert_eq!(strip_scheme("Bearer "), "");
    assert_eq!(strip_scheme("Bearer"), "Bearer");
    assert_eq!(strip_scheme("abc"), "abc");
    assert_eq!(strip_scheme("Bearer Bearer x"), "Bearer x");
    assert_eq!(strip_scheme(""), "");
}

#[test]
fn try_encode_gives_the_credential_of_encode() {
    assert_eq!(try_encode("abc", ""), Some("YWJjOg==".to_string()));
    assert_eq!(try_encode("id", "payload"), Some(encode("id", "payload")));
    let long = "x".repeat(10_000);
    let credential = try_encode(&long, &long).unwrap();
    assert_eq!(credential.len(), 26_668);
    assert_eq!(decode(&credential), Ok((long.clone(), long)));
}
