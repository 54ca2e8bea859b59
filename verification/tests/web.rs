use staged::web::{
    arg, authenticate, bearer_token, check_certificate_count, constant_time_eq, generate_token, get_store, handle_ws,
    image_data_url, invoke_error_body, opt_arg, require_auth, route_web_command, tls_paths, web_event, ArgLookup,
    WebRoute, WebSessions, WsAction, WsInput,
};

#[test]
fn token_is_64_lowercase_hex_digits() {
    let t = generate_token();
    assert_eq!(t.len(), 64);
    assert!(t.chars().all(|c| c.is_ascii_digit() || ('a'..='f').contains(&c)));
    assert_ne!(generate_token(), t);
}

#[test]
fn constant_time_comparison_is_equality() {
    assert!(constant_time_eq("abc", "abc"));
    assert!(!constant_time_eq("abc", "abd"));
    assert!(!constant_time_eq("abc", "abcd"));
    assert!(constant_time_eq("", ""));
    assert!(constant_time_eq("é", "é"));
}

#[test]
fn bearer_header_parsing() {
    assert_eq!(bearer_token("Bearer abc"), Some("abc".to_string()));
    assert_eq!(bearer_token("Bearer "), Some(String::new()));
    assert_eq!(bearer_token("bearer abc"), None);
    assert_eq!(bearer_token("Basic abc"), None);
}

#[test]
fn sessions_are_a_set() {
    let mut s = WebSessions::new();
    assert_eq!(s.len(), 0);
    s.insert("one".to_string());
    s.insert("two".to_string());
    s.insert("one".to_string());
    assert_eq!(s.len(), 2);
    assert!(s.contains("one"));
    assert!(!s.contains("three"));
}

#[test]
fn requests_need_token_or_session() {
    let mut sessions = WebSessions::new();
    sessions.insert("sess".to_string());
    assert!(require_auth(Some("Bearer tok"), "tok", None, &sessions));
    assert!(!require_auth(Some("Bearer nope"), "tok", None, &sessions));
    assert!(!require_auth(Some("tok"), "tok", None, &sessions));
    assert!(require_auth(None, "tok", Some("sess"), &sessions));
    assert!(require_auth(Some("Bearer nope"), "tok", Some("sess"), &sessions));
    assert!(!require_auth(None, "tok", Some("other"), &sessions));
    assert!(!require_auth(None, "tok", None, &sessions));
}

#[test]
fn issued_session_lets_requests_through() {
    let mut sessions = WebSessions::new();
    let id = authenticate(&mut sessions, "secret", Some("secret")).expect("accepted");
    assert_eq!(id.len(), 64);
    assert!(require_auth(None, "secret", Some(&id), &sessions));
    assert_eq!(sessions.len(), 1);
}

#[test]
fn wrong_or_missing_token_is_refused() {
    let mut sessions = WebSessions::new();
    assert_eq!(authenticate(&mut sessions, "secret", Some("guess")), None);
    assert_eq!(authenticate(&mut sessions, "secret", None), None);
    assert_eq!(sessions.len(), 0);
    // With an empty server token, a missing token field matches it.
    assert!(authenticate(&mut sessions, "", None).is_some());
}

#[test]
fn event_frame_is_event_then_payload() {
    let e = web_event("repo-cloned", "\"block/goose\"");
    assert_eq!(e.event_name, "repo-cloned");
    assert_eq!(e.payload, "{\"event\":\"repo-cloned\",\"payload\":\"block/goose\"}");
    let quoted = web_event("say \"hi\"", "null");
    assert_eq!(quoted.payload, "{\"event\":\"say \\\"hi\\\"\",\"payload\":null}");
}

#[test]
fn error_body_wraps_message() {
    assert_eq!(invoke_error_body("Unknown command: x"), "{\"error\":\"Unknown command: x\"}");
    assert_eq!(invoke_error_body("a\nb"), "{\"error\":\"a\\nb\"}");
}

#[test]
fn socket_steps() {
    assert!(matches!(handle_ws(WsInput::Event("f".to_string())), WsAction::SendText(t) if t == "f"));
    assert!(matches!(handle_ws(WsInput::ClientPing(vec![1, 2])), WsAction::SendPong(d) if d == vec![1, 2]));
    assert!(matches!(handle_ws(WsInput::Lagged(5)), WsAction::Continue));
    assert!(matches!(handle_ws(WsInput::ClientOther), WsAction::Continue));
    assert!(matches!(handle_ws(WsInput::ChannelClosed), WsAction::Stop));
    assert!(matches!(handle_ws(WsInput::ClientClosed), WsAction::Stop));
}

#[test]
fn argument_errors() {
    assert_eq!(arg::<u32>("projectId", None), Err("missing argument: projectId".to_string()));
    assert_eq!(arg::<u32>("limit", Some(Ok(3))), Ok(3));
    assert_eq!(
        arg::<u32>("limit", Some(Err("expected u32".to_string()))),
        Err("invalid argument 'limit': expected u32".to_string())
    );
    assert_eq!(opt_arg::<u32>("limit", ArgLookup::Absent), Ok(None));
    assert_eq!(opt_arg::<u32>("limit", ArgLookup::Null), Ok(None));
    assert_eq!(opt_arg::<u32>("limit", ArgLookup::Present(Ok(4))), Ok(Some(4)));
    assert_eq!(
        opt_arg::<u32>("limit", ArgLookup::Present(Err("bad".to_string()))),
        Err("invalid argument 'limit': bad".to_string())
    );
}

#[test]
fn web_store_slot_error_message() {
    assert_eq!(get_store::<u8>(None), Err("Database not initialized".to_string()));
    assert_eq!(get_store(Some(1u8)), Ok(1));
}

#[test]
fn image_data_urls_use_standard_base64() {
    assert_eq!(image_data_url("image/png", b"Man"), "data:image/png;base64,TWFu");
    assert_eq!(image_data_url("image/png", b"Ma"), "data:image/png;base64,TWE=");
    assert_eq!(image_data_url("image/gif", b"M"), "data:image/gif;base64,TQ==");
    assert_eq!(image_data_url("image/jpeg", b""), "data:image/jpeg;base64,");
    assert_eq!(image_data_url("x", &[0xfb, 0xff]), "data:x;base64,+/8=");
}

#[test]
fn command_routes() {
    assert!(matches!(route_web_command("get_store_status"), WebRoute::StoreReady));
    assert!(matches!(route_web_command("get_available_openers"), WebRoute::NoOpeners));
    assert!(matches!(
        route_web_command("confirm_reset_store"),
        WebRoute::Refused(m) if m == "confirm_reset_store is not supported in web mode"
    ));
    assert!(matches!(
        route_web_command("open_in_app"),
        WebRoute::Refused(m) if m == "open_in_app is not available in web mode"
    ));
    assert!(matches!(
        route_web_command("create_image"),
        WebRoute::Refused(m) if m == "create_image is not available in web mode"
    ));
    assert!(matches!(
        route_web_command("open_url"),
        WebRoute::Refused(m) if m == "open_url is handled by the browser in web mode"
    ));
    for c in ["list_projects", "create_image_from_data", "is_sq_available", "get_blox_env", "create_project", "start_or_queue_branch_session", "run_doctor_update", "get_image_data"] {
        assert!(matches!(route_web_command(c), WebRoute::Handle), "{c}");
    }
    assert!(matches!(route_web_command("drop_tables"), WebRoute::Unknown(m) if m == "Unknown command: drop_tables"));
    assert!(matches!(route_web_command(""), WebRoute::Unknown(m) if m == "Unknown command: "));
}

#[test]
fn tls_configuration_errors() {
    assert_eq!(
        tls_paths(None, Some("k".to_string())),
        Err("STAGED_WEB_CERT_PATH must point to a PEM certificate file".to_string())
    );
    assert_eq!(
        tls_paths(Some("c".to_string()), None),
        Err("STAGED_WEB_KEY_PATH must point to a PEM private key file".to_string())
    );
    assert_eq!(
        tls_paths(Some("c".to_string()), Some("k".to_string())),
        Ok(("c".to_string(), "k".to_string()))
    );
    assert_eq!(
        check_certificate_count("/tmp/cert.pem", 0),
        Err("TLS certificate /tmp/cert.pem did not contain any certificates".to_string())
    );
    assert_eq!(check_certificate_count("/tmp/cert.pem", 2), Ok(()));
}
