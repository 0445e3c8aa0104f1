use serde_json::Value;
use ziyyanmart_store::store::{
    decode_document, encode_document, load_document, locate, plan_save, FileState, Slot,
    StoreError,
};

fn sample() -> Value {
    serde_json::from_str(
        r#"{"name":"Toko","items":[{"id":1,"price":2500,"tags":["a","b"]},{"id":2,"price":-3,"ok":true,"note":null}],"empty":{},"list":[]}"#,
    )
    .unwrap()
}

#[test]
fn slot_file_names_are_fixed() {
    assert_eq!(Slot::Settings.file_name(), "settings.json");
    assert_eq!(Slot::Database.file_name(), "database.json");
}

#[test]
fn locate_joins_directory_and_file_name() {
    let p = locate(Some("/data/app".to_string()), Slot::Database).unwrap();
    assert_eq!(p.dir, "/data/app");
    assert_eq!(p.file_name, "database.json");
}

#[test]
fn locate_without_directory_fails() {
    let r = locate(None, Slot::Settings);
    assert!(matches!(r, Err(StoreError::PathResolution)));
}

#[test]
fn save_then_load_round_trips() {
    for slot in [Slot::Settings, Slot::Database] {
        for v in [
            sample(),
            Value::Null,
            Value::Bool(false),
            Value::from(42),
            Value::from("teks"),
            Value::Array(vec![]),
        ] {
            let plan = plan_save(Some("/d".to_string()), slot, &v).unwrap();
            let back = load_document(FileState::Text(plan.text)).unwrap();
            assert_eq!(back, v);
        }
    }
}

#[test]
fn missing_file_loads_as_null() {
    let r = load_document(FileState::Missing).unwrap();
    assert_eq!(r, Value::Null);
}

#[test]
fn stored_literal_null_loads_as_null() {
    let r = load_document(FileState::Text("null".to_string())).unwrap();
    assert_eq!(r, Value::Null);
}

#[test]
fn saving_twice_gives_identical_bytes() {
    let v = sample();
    let a = plan_save(Some("/d".to_string()), Slot::Settings, &v).unwrap();
    let b = plan_save(Some("/d".to_string()), Slot::Settings, &v).unwrap();
    assert_eq!(a.text.as_bytes(), b.text.as_bytes());
}

#[test]
fn saved_text_is_pretty_printed() {
    let text = encode_document(&sample()).unwrap();
    assert!(text.contains('\n'));
    assert!(text.contains("  \"name\": \"Toko\""));
    assert_eq!(encode_document(&Value::from(7)).unwrap(), "7");
}

#[test]
fn last_save_wins() {
    let v1 = sample();
    let v2: Value = serde_json::from_str(r#"{"other":[1,2,3]}"#).unwrap();
    let first = plan_save(Some("/d".to_string()), Slot::Database, &v1).unwrap();
    let second = plan_save(Some("/d".to_string()), Slot::Database, &v2).unwrap();
    assert_eq!(first.location.file_name, second.location.file_name);
    let stored = second.text;
    let back = load_document(FileState::Text(stored)).unwrap();
    assert_eq!(back, v2);
    assert!(back.get("name").is_none());
}

#[test]
fn malformed_file_fails_to_parse() {
    let text = "{invalid".to_string();
    let r = load_document(FileState::Text(text.clone()));
    let expected = serde_json::from_str::<Value>("{invalid").unwrap_err().to_string();
    match r {
        Err(StoreError::Parse(m)) => assert_eq!(m, expected),
        other => panic!("expected a parse failure, got {:?}", other),
    }
    assert_eq!(text, "{invalid");
}

#[test]
fn decode_rejects_trailing_text() {
    assert!(matches!(decode_document("{} {}"), Err(StoreError::Parse(_))));
    assert_eq!(decode_document(" [1, 2] ").unwrap(), Value::Array(vec![Value::from(1), Value::from(2)]));
}

#[test]
fn unreadable_file_is_an_io_failure() {
    let r = load_document(FileState::Unreadable("Permission denied".to_string()));
    match r {
        Err(StoreError::Io(m)) => assert_eq!(m, "Permission denied"),
        other => panic!("expected an I/O failure, got {:?}", other),
    }
}

#[test]
fn save_names_the_directory_to_create() {
    let plan = plan_save(Some("/home/u/.local/share/app".to_string()), Slot::Settings, &sample()).unwrap();
    assert_eq!(plan.location.dir, "/home/u/.local/share/app");
    assert_eq!(plan.location.file_name, "settings.json");
}

#[test]
fn save_without_directory_fails() {
    let r = plan_save(None, Slot::Database, &sample());
    assert!(matches!(r, Err(StoreError::PathResolution)));
}

#[test]
fn error_messages() {
    assert_eq!(StoreError::Io("disk full".to_string()).message(), "disk full");
    assert_eq!(StoreError::Parse("bad".to_string()).message(), "bad");
    assert_eq!(StoreError::Serialization("x".to_string()).message(), "x");
    assert_eq!(
        StoreError::UserCancelled.message(),
        "Proses penyimpanan backup dibatalkan."
    );
    assert_eq!(
        StoreError::PathResolution.message(),
        "the application data directory cannot be determined"
    );
}

#[test]
fn loading_the_same_malformed_text_twice_gives_the_same_message() {
    let a = decode_document("[1, 2,");
    let b = decode_document("[1, 2,");
    match (a, b) {
        (Err(StoreError::Parse(x)), Err(StoreError::Parse(y))) => assert_eq!(x, y),
        other => panic!("expected two parse failures, got {:?}", other),
    }
}

#[test]
fn saving_with_a_known_directory_always_succeeds() {
    for v in [sample(), Value::Null, Value::from(1.5), Value::from(u64::MAX)] {
        assert!(plan_save(Some("/d".to_string()), Slot::Settings, &v).is_ok());
        assert_eq!(
            encode_document(&v).unwrap(),
            serde_json::to_string_pretty(&v).unwrap()
        );
    }
}
