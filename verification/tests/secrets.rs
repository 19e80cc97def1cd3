use lambda::infrastructure::secrets::{load_secrets, Secrets, SecretsError};

#[test]
fn a_bundle_of_strings_is_loaded_in_order() {
    let secrets = load_secrets(Some(r#"{"SLACK_TOKEN":"xoxb-1","SIGNING_SECRET":"s3"}"#)).unwrap();
    assert_eq!(
        secrets,
        Secrets {
            entries: vec![
                ("SLACK_TOKEN".to_string(), "xoxb-1".to_string()),
                ("SIGNING_SECRET".to_string(), "s3".to_string()),
            ],
        }
    );
    assert_eq!(secrets.get("SIGNING_SECRET"), Some("s3"));
    assert_eq!(secrets.get("SLACK_TOKEN"), Some("xoxb-1"));
    assert_eq!(secrets.get("OTHER"), None);
}

#[test]
fn a_name_that_is_repeated_in_the_text_is_loaded_once() {
    let secrets = load_secrets(Some(r#"{"a":"1","b":"2","a":"3"}"#)).unwrap();
    assert_eq!(
        secrets.entries,
        vec![("a".to_string(), "3".to_string()), ("b".to_string(), "2".to_string())]
    );
}

#[test]
fn an_empty_bundle_is_loaded() {
    assert_eq!(load_secrets(Some("{}")), Ok(Secrets { entries: vec![] }));
}

#[test]
fn what_is_no_bundle_is_an_error() {
    assert_eq!(load_secrets(None), Err(SecretsError::NotFound));
    assert_eq!(load_secrets(Some("")), Err(SecretsError::NotJson));
    assert_eq!(load_secrets(Some("SLACK_TOKEN=x")), Err(SecretsError::NotJson));
    assert_eq!(load_secrets(Some("[]")), Err(SecretsError::NotStrings));
    assert_eq!(load_secrets(Some("\"x\"")), Err(SecretsError::NotStrings));
    assert_eq!(load_secrets(Some(r#"{"a":"x","b":1}"#)), Err(SecretsError::NotStrings));
    assert_eq!(load_secrets(Some(r#"{"a":null}"#)), Err(SecretsError::NotStrings));
    assert_eq!(load_secrets(Some(r#"{"a":{"b":"c"}}"#)), Err(SecretsError::NotStrings));
}

#[test]
fn the_first_secret_of_a_name_is_found() {
    let secrets = Secrets {
        entries: vec![
            ("a".to_string(), "1".to_string()),
            ("a".to_string(), "2".to_string()),
        ],
    };
    assert_eq!(secrets.get("a"), Some("1"));
}
