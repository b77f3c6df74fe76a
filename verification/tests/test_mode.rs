use idle_game::test_mode::{parse_test_mode_from_args, AppModule, TestMode};

#[test]
fn test_app_module_parse() {
    assert_eq!(AppModule::parse("auto-queue"), Some(AppModule::AutoQueue));
    assert_eq!(AppModule::parse("auto_queue"), Some(AppModule::AutoQueue));
    assert_eq!(AppModule::parse("keys"), Some(AppModule::AutoQueue));
    assert_eq!(AppModule::parse("text"), Some(AppModule::Text));
    assert_eq!(AppModule::parse("upgrade"), Some(AppModule::Upgrade));
    assert_eq!(AppModule::parse("graph"), Some(AppModule::Graph));
    assert_eq!(AppModule::parse("money-bar"), Some(AppModule::MoneyBar));
    assert_eq!(AppModule::parse("unknown"), None);
}

#[test]
fn test_test_mode_default_is_auto_queue() {
    let tm = TestMode::default();
    assert!(tm.is_active(AppModule::AutoQueue));
    assert!(!tm.is_active(AppModule::Text));
    assert!(tm.is_single_active(AppModule::AutoQueue));
}

#[test]
fn test_parse_csv() {
    let tm = TestMode::parse_csv("auto-queue,text");
    assert!(tm.is_active(AppModule::AutoQueue));
    assert!(tm.is_active(AppModule::Text));
    assert!(!tm.is_active(AppModule::Upgrade));
    assert!(!tm.is_single_active(AppModule::AutoQueue));
}

#[test]
fn test_parse_args_flags() {
    let args = vec!["idle_game".to_string(), "--test".to_string()];
    let tm = parse_test_mode_from_args(&args, None).unwrap();
    assert!(tm.is_single_active(AppModule::AutoQueue));

    let args = vec![
        "idle_game".to_string(),
        "--test".to_string(),
        "auto-queue".to_string(),
    ];
    let tm = parse_test_mode_from_args(&args, None).unwrap();
    assert!(tm.is_single_active(AppModule::AutoQueue));

    let args = vec![
        "idle_game".to_string(),
        "--test-mode=text".to_string(),
    ];
    let tm = parse_test_mode_from_args(&args, None).unwrap();
    assert!(tm.is_single_active(AppModule::Text));

    let args = vec!["idle_game".to_string()];
    assert_eq!(parse_test_mode_from_args(&args, None), None);
}
