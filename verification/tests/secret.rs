use serde_json::{Number, Value};
use songdle::secret::{
    get_token, resolve, secret_from_document, ConfigurationUnavailable, CONFIG_PATH,
};

fn object_with(name: &str, value: Value) -> Value {
    let mut members = serde_json::Map::new();
    members.insert(name.to_string(), value);
    Value::Object(members)
}

#[test]
fn token_of_a_document_with_the_member() {
    assert_eq!(get_token(Some(b"{\"oauth\": \"TOKEN123\"}")), "TOKEN123");
    assert_eq!(resolve(Some(b"{\"oauth\": \"TOKEN123\"}")), Ok("TOKEN123".to_string()));
}

#[test]
fn token_is_returned_exactly_for_many_texts() {
    let texts = [
        "",
        "a",
        " leading and trailing ",
        "with \"quotes\" and \\ backslash",
        "line\nbreak\tand tab",
        "gr\u{fc}\u{df}e \u{1f3b5} \u{4e2d}",
        "oauth",
        "{\"oauth\": \"nested\"}",
    ];
    for text in texts {
        let document = serde_json::to_vec(&object_with("oauth", Value::String(text.to_string())))
            .unwrap();
        assert_eq!(get_token(Some(&document)), text);
        assert_eq!(resolve(Some(&document)), Ok(text.to_string()));
    }
}

#[test]
fn token_with_escapes_is_decoded() {
    assert_eq!(get_token(Some(b"{\"oauth\": \"a\\u0041\\n\\\"b\"}")), "aA\n\"b");
}

#[test]
fn token_among_other_members_and_whitespace() {
    let document = b" \n{ \"user\": 7, \"oauth\" :\t\"abc\", \"more\": [1, 2] }\n ";
    assert_eq!(get_token(Some(document)), "abc");
}

#[test]
fn empty_token_is_a_success() {
    assert_eq!(resolve(Some(b"{\"oauth\": \"\"}")), Ok(String::new()));
    assert_eq!(get_token(Some(b"{\"oauth\": \"\"}")), "");
}

#[test]
fn missing_document_gives_the_empty_token() {
    assert_eq!(get_token(None), "");
    assert_eq!(resolve(None), Err(ConfigurationUnavailable::DocumentMissing));
}

#[test]
fn unparseable_document_gives_the_empty_token() {
    let documents: [&[u8]; 8] = [
        b"",
        b"   ",
        b"not json",
        b"{\"oauth\": \"abc\"",
        b"{\"oauth\": \"abc\"} trailing",
        b"{'oauth': 'abc'}",
        b"{\"oauth\": \"abc\",}",
        b"{\"oauth\": \"\xff\xfe\"}",
    ];
    for document in documents {
        assert_eq!(get_token(Some(document)), "");
        assert_eq!(resolve(Some(document)), Err(ConfigurationUnavailable::Unparseable));
    }
}

#[test]
fn document_without_the_member_gives_the_empty_token() {
    let documents: [&[u8]; 9] = [
        b"{}",
        b"{\"token\": \"abc\"}",
        b"{\"OAUTH\": \"abc\"}",
        b"{\"oauth \": \"abc\"}",
        b"{\"inner\": {\"oauth\": \"abc\"}}",
        b"null",
        b"\"oauth\"",
        b"[\"oauth\", \"abc\"]",
        b"17",
    ];
    for document in documents {
        assert_eq!(get_token(Some(document)), "");
        assert_eq!(resolve(Some(document)), Err(ConfigurationUnavailable::FieldMissing));
    }
}

#[test]
fn member_that_is_no_text_gives_the_empty_token() {
    let documents: [&[u8]; 6] = [
        b"{\"oauth\": null}",
        b"{\"oauth\": true}",
        b"{\"oauth\": 123}",
        b"{\"oauth\": 1.5}",
        b"{\"oauth\": [\"abc\"]}",
        b"{\"oauth\": {\"oauth\": \"abc\"}}",
    ];
    for document in documents {
        assert_eq!(get_token(Some(document)), "");
        assert_eq!(resolve(Some(document)), Err(ConfigurationUnavailable::FieldNotText));
    }
}

#[test]
fn secret_from_a_built_document() {
    let doc = object_with("oauth", Value::String("built".to_string()));
    assert_eq!(secret_from_document(&doc), Ok("built".to_string()));
}

#[test]
fn secret_from_a_document_that_is_itself_text() {
    let doc = Value::String("oauth".to_string());
    assert_eq!(secret_from_document(&doc), Err(ConfigurationUnavailable::FieldMissing));
}

#[test]
fn secret_from_documents_of_every_other_kind() {
    let missing = [
        Value::Null,
        Value::Bool(true),
        Value::Number(Number::from(3u64)),
        Value::Array(vec![Value::String("oauth".to_string())]),
        Value::Object(serde_json::Map::new()),
        object_with("other", Value::String("x".to_string())),
    ];
    for doc in missing {
        assert_eq!(secret_from_document(&doc), Err(ConfigurationUnavailable::FieldMissing));
    }
    let not_text = [
        object_with("oauth", Value::Null),
        object_with("oauth", Value::Bool(false)),
        object_with("oauth", Value::Number(Number::from(0u64))),
        object_with("oauth", Value::Array(Vec::new())),
        object_with("oauth", object_with("oauth", Value::String("deep".to_string()))),
    ];
    for doc in not_text {
        assert_eq!(secret_from_document(&doc), Err(ConfigurationUnavailable::FieldNotText));
    }
}

#[test]
fn secret_is_the_member_and_not_the_document() {
    let doc = object_with("oauth", Value::String("inner".to_string()));
    let found = secret_from_document(&doc).unwrap();
    assert_eq!(found, "inner");
    assert_ne!(found, doc.to_string());
}

#[test]
fn resolving_twice_gives_the_same() {
    let document = b"{\"oauth\": \"same\"}";
    assert_eq!(resolve(Some(document)), resolve(Some(document)));
    assert_eq!(get_token(Some(document)), get_token(Some(document)));
    assert_eq!(get_token(None), get_token(None));
}

#[test]
fn token_agrees_with_the_outcome() {
    let documents: [Option<&[u8]>; 5] = [
        None,
        Some(b"{\"oauth\": \"abc\"}"),
        Some(b"{\"oauth\": 5}"),
        Some(b"{}"),
        Some(b"{"),
    ];
    for document in documents {
        let expected = match resolve(document) {
            Ok(text) => text,
            Err(_) => String::new(),
        };
        assert_eq!(get_token(document), expected);
    }
}

#[test]
fn configuration_path_is_fixed() {
    assert_eq!(CONFIG_PATH, "etc/secret.json");
}
