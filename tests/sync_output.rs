use geph_autotest::{
    choose_exit, exit_list_index, interpret_sync, interpret_sync_json, Json, SyncError,
};

#[test]
fn subscriber_gets_second_list() {
    let out = br#"[{"subscription": {"level": "plus"}}, [{"hostname": "a.exits"}, {"hostname": "b.exits", "country": "ca"}], [{"hostname": "c.exits"}]]"#;
    let info = interpret_sync(out).unwrap();
    assert!(info.is_plus);
    assert_eq!(info.exits, vec!["a.exits".to_string(), "b.exits".to_string()]);
}

#[test]
fn null_subscription_gets_third_list() {
    let out = br#"[{"subscription": null, "name": "u"}, [{"hostname": "a"}], [{"hostname": "c"}, {"hostname": "d"}]]"#;
    let info = interpret_sync(out).unwrap();
    assert!(!info.is_plus);
    assert_eq!(info.exits, vec!["c".to_string(), "d".to_string()]);
}

#[test]
fn missing_subscription_is_free_tier() {
    let out = br#"[{}, [], [{"hostname": "c"}], "extra"]"#;
    let info = interpret_sync(out).unwrap();
    assert!(!info.is_plus);
    assert_eq!(info.exits, vec!["c".to_string()]);
}

#[test]
fn two_element_array_is_fatal() {
    let out = br#"[{"subscription": {"level": "plus"}}, [{"hostname": "a"}]]"#;
    assert_eq!(interpret_sync(out).unwrap_err(), SyncError::TooFewElements);
    assert_eq!(interpret_sync(b"[]").unwrap_err(), SyncError::TooFewElements);
}

#[test]
fn malformed_json_is_fatal() {
    assert_eq!(interpret_sync(b"geph gave us junk").unwrap_err(), SyncError::BadJson);
    assert_eq!(interpret_sync(br#"{"a": 1}"#).unwrap_err(), SyncError::BadJson);
    assert_eq!(interpret_sync(b"").unwrap_err(), SyncError::BadJson);
}

#[test]
fn bad_user_info_is_fatal() {
    assert_eq!(interpret_sync(b"[1, [], []]").unwrap_err(), SyncError::BadUserInfo);
}

#[test]
fn bad_exit_list_is_fatal() {
    assert_eq!(interpret_sync(br#"[{}, [], 5]"#).unwrap_err(), SyncError::BadExitList);
    assert_eq!(
        interpret_sync(br#"[{}, [], [{"name": "x"}]]"#).unwrap_err(),
        SyncError::BadExitList
    );
    assert_eq!(
        interpret_sync(br#"[{}, [], [{"hostname": 7}]]"#).unwrap_err(),
        SyncError::BadExitList
    );
}

#[test]
fn exit_list_position_by_tier() {
    assert_eq!(exit_list_index(3, true), Ok(1));
    assert_eq!(exit_list_index(5, false), Ok(2));
    assert_eq!(exit_list_index(2, true), Err(SyncError::TooFewElements));
    assert_eq!(exit_list_index(0, false), Err(SyncError::TooFewElements));
}

#[test]
fn exit_chosen_from_list() {
    assert_eq!(choose_exit(&Vec::new()), Err(SyncError::NoExits));
    let exits = vec!["a".to_string(), "b".to_string(), "c".to_string()];
    for _ in 0..20 {
        let h = choose_exit(&exits).unwrap();
        assert!(exits.contains(&h));
    }
    assert_eq!(choose_exit(&vec!["only".to_string()]), Ok("only".to_string()));
}

#[test]
fn free_tier_single_exit_scenario() {
    let out = br#"[{"subscription":null},[],[{"hostname":"h"}]]"#;
    let info = interpret_sync(out).unwrap();
    assert!(!info.is_plus);
    assert_eq!(info.exits, vec!["h".to_string()]);
    assert_eq!(choose_exit(&info.exits), Ok("h".to_string()));
}

#[test]
fn subscriber_with_empty_list_has_no_exit() {
    let info = interpret_sync(br#"[{"subscription": 1}, [], [{"hostname": "c"}]]"#).unwrap();
    assert!(info.is_plus);
    assert!(info.exits.is_empty());
    assert_eq!(choose_exit(&info.exits), Err(SyncError::NoExits));
}

#[test]
fn parsed_model_is_read_the_same_way() {
    let obj = |k: &str, v: Json| Json::Object(vec![(k.to_string(), v)]);
    let j = Json::Array(vec![
        obj("subscription", Json::Bool(false)),
        Json::Array(vec![obj("hostname", Json::Str("p".to_string()))]),
        Json::Array(vec![]),
    ]);
    let info = interpret_sync_json(&j).unwrap();
    assert!(info.is_plus);
    assert_eq!(info.exits, vec!["p".to_string()]);
    assert_eq!(interpret_sync_json(&Json::Null).unwrap_err(), SyncError::BadJson);
    let bad = Json::Array(vec![Json::Number, Json::Array(vec![]), Json::Array(vec![])]);
    assert_eq!(interpret_sync_json(&bad).unwrap_err(), SyncError::BadUserInfo);
}
