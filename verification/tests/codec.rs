use lambda::infrastructure::slack::{
    token_from_compressed, DecodeError, EncodeError, PrivateMetadata,
};
use lambda::json::Json;

fn state(ts: &str, log_group: &str, message: &str) -> PrivateMetadata {
    PrivateMetadata::builder()
        .ts(ts.to_string())
        .log_group(log_group.to_string())
        .message(message.to_string())
        .build()
}

#[test]
fn a_token_holds_its_state() {
    let s = state("123.45", "/svc/a", "OOM killed");
    let token = s.encode_base64().unwrap();
    assert_eq!(PrivateMetadata::try_from(token.as_str()), Ok(s));
}

#[test]
fn round_trip_keeps_every_character() {
    let cases = [
        state("", "", ""),
        state("1.0", "/aws/lambda/fn", "line one\nline two\t\"quoted\" \\ back"),
        state("1700000000.000100", "ロググループ", "エラーが発生しました 🚨"),
        state("0", "a", "\u{0}\u{1f}\u{7f}"),
    ];
    for s in cases {
        let token = s.encode_base64().unwrap();
        assert_ne!(token, s.to_json().to_text().unwrap());
        assert_eq!(PrivateMetadata::try_from(token.as_str()), Ok(s));
    }
}

#[test]
fn a_token_is_padded_standard_base64_of_a_gzip_stream() {
    let token = state("123.45", "/svc/a", "OOM killed").encode_base64().unwrap();
    assert_eq!(token.len() % 4, 0);
    assert!(token.starts_with("H4sI"));
    assert!(token
        .chars()
        .all(|c| c.is_ascii_alphanumeric() || c == '+' || c == '/' || c == '='));
}

#[test]
fn equal_states_give_equal_tokens() {
    let a = state("123.45", "/svc/a", "OOM killed").encode_base64().unwrap();
    let b = state("123.45", "/svc/a", "OOM killed").encode_base64().unwrap();
    assert_eq!(a, b);
    let c = state("123.46", "/svc/a", "OOM killed").encode_base64().unwrap();
    assert_ne!(a, c);
    assert!(!a.contains('-') && !a.contains('_'));
}

#[test]
fn a_token_made_elsewhere_is_read() {
    let token = "H4sIAAAAAAAC/6tWKilWslIyNDLWMzFV0lHKyU+PTy/KLy0ACuoXlyXrJwIFc1OLixPTU4FC/v6+CtmZOTmpKUq1ALeusTs7AAAA";
    assert_eq!(
        PrivateMetadata::try_from(token),
        Ok(state("123.45", "/svc/a", "OOM killed"))
    );
}

#[test]
fn each_step_of_decoding_has_its_error() {
    assert_eq!(PrivateMetadata::try_from("not base64 at all!"), Err(DecodeError::Base64));
    assert_eq!(PrivateMetadata::try_from("abc"), Err(DecodeError::Base64));
    assert_eq!(
        PrivateMetadata::try_from("cGxhaW4gYnl0ZXMsIG5vIGd6aXA="),
        Err(DecodeError::Gzip)
    );
    assert_eq!(PrivateMetadata::try_from(""), Err(DecodeError::Gzip));
    assert_eq!(
        PrivateMetadata::try_from("H4sIAAAAAAAC/8vLL1HIKs7PAwBmy4zGCAAAAA=="),
        Err(DecodeError::Json)
    );
    assert_eq!(
        PrivateMetadata::try_from(
            "H4sIAAAAAAAC/6tWKilWslIyVNJRyslPj08vyi8tAPLTlWoBbmHBAhoAAAA="
        ),
        Err(DecodeError::State)
    );
}

#[test]
fn a_damaged_token_gives_no_state() {
    let token = state("123.45", "/svc/a", "OOM killed").encode_base64().unwrap();
    let cut = &token[..token.len() - 8];
    assert!(PrivateMetadata::try_from(cut).is_err());
}

#[test]
fn the_state_document_has_three_strings() {
    let s = state("123.45", "/svc/a", "OOM killed");
    assert_eq!(
        s.to_json().to_text().unwrap(),
        r#"{"ts":"123.45","log_group":"/svc/a","message":"OOM killed"}"#
    );
    assert_eq!(PrivateMetadata::from_json(&s.to_json()), Some(s));
}

#[test]
fn a_state_is_read_from_any_object_with_the_three_strings() {
    let j = Json::parse(r#"{"message":"m","extra":1,"log_group":"g","ts":"t"}"#).unwrap();
    assert_eq!(PrivateMetadata::from_json(&j), Some(state("t", "g", "m")));
    let j = Json::parse(r#"{"message":"m","log_group":"g","ts":5}"#).unwrap();
    assert_eq!(PrivateMetadata::from_json(&j), None);
    let j = Json::parse(r#"{"message":"m","log_group":null,"ts":"t"}"#).unwrap();
    assert_eq!(PrivateMetadata::from_json(&j), None);
    let j = Json::parse(r#"["t","g","m"]"#).unwrap();
    assert_eq!(PrivateMetadata::from_json(&j), None);
}

#[test]
fn getters_of_the_state() {
    let s = state("123.45", "/svc/a", "OOM killed");
    assert_eq!(s.ts(), "123.45");
    assert_eq!(s.log_group(), "/svc/a");
    assert_eq!(s.message(), "OOM killed");
}

#[test]
fn a_token_from_what_the_compressor_gave() {
    assert_eq!(token_from_compressed(None), Err(EncodeError::Compress));
    assert_eq!(token_from_compressed(Some(vec![])), Ok(String::new()));
    assert_eq!(
        token_from_compressed(Some(b"plain bytes, no gzip".to_vec())),
        Ok("cGxhaW4gYnl0ZXMsIG5vIGd6aXA=".to_string())
    );
    assert_eq!(token_from_compressed(Some(vec![0xfb, 0xff])), Ok("+/8=".to_string()));
    for n in 0..10usize {
        let token = token_from_compressed(Some(vec![7; n])).unwrap();
        assert_eq!(token.len(), 4 * ((n + 2) / 3));
        let pad = (3 - n % 3) % 3;
        assert!(token[..token.len() - pad].chars().all(|c| c.is_ascii_alphanumeric() || c == '+' || c == '/'));
        assert!(token[token.len() - pad..].chars().all(|c| c == '='));
    }
}
