use semi_xmlrpc_tester::mapper::MapError;
use semi_xmlrpc_tester::settings::import_json_data;

#[test]
fn settings_are_named_after_upper_case_keys() {
    let pairs =
        import_json_data(r#"{"url": "https://srv/rpc/api", "kiwi_profile": "POS_Image", "build_host": "bh.example"}"#)
            .unwrap();
    assert_eq!(
        pairs,
        vec![
            ("UYUNI_URL".to_string(), "https://srv/rpc/api".to_string()),
            ("UYUNI_KIWI_PROFILE".to_string(), "POS_Image".to_string()),
            ("UYUNI_BUILD_HOST".to_string(), "bh.example".to_string()),
        ]
    );
}

#[test]
fn settings_keep_the_text_of_every_value() {
    let pairs = import_json_data(r#"{"user": "admin", "port": 8080, "debug": true, "hosts": [1, 2]}"#).unwrap();
    assert_eq!(
        pairs,
        vec![
            ("UYUNI_USER".to_string(), "admin".to_string()),
            ("UYUNI_PORT".to_string(), "8080".to_string()),
            ("UYUNI_DEBUG".to_string(), "true".to_string()),
            ("UYUNI_HOSTS".to_string(), "[1,2]".to_string()),
        ]
    );
}

#[test]
fn settings_errors() {
    assert!(matches!(import_json_data("{"), Err(MapError::Unparsable)));
    assert!(matches!(import_json_data(r#"["a"]"#), Err(MapError::NotAnObject)));
    assert_eq!(import_json_data("{}").unwrap(), vec![]);
    let long = format!("{{\"n\": 0.{}}}", "0".repeat(40000));
    assert!(matches!(import_json_data(&long), Err(MapError::TooLarge)));
}
