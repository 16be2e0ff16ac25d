use zero::security::{
    is_valid_key, login, process, put, AuthInput, NetworkInput, SecurityError, StorageInput,
};

fn net(address: &str, port: u16) -> NetworkInput {
    NetworkInput { address: address.to_string(), port, payload: None }
}

#[test]
fn valid_input() {
    let res = process(net("127.0.0.1", 1));
    assert!(res.is_ok());
}

#[test]
fn invalid_input_port_zero() {
    let res = process(net("127.0.0.1", 0));
    assert!(res.is_err());
}

#[test]
fn valid_put() {
    let res = put(StorageInput { key: "k1".to_string(), value: "v".to_string() });
    assert!(res.is_ok());
}

#[test]
fn empty_key() {
    let res = put(StorageInput { key: "".to_string(), value: "v".to_string() });
    assert!(res.is_err());
}

#[test]
fn valid_login() {
    let res = login(AuthInput { username: "bob".to_string(), password: "password123".to_string() });
    assert!(res.is_ok());
}

#[test]
fn short_password() {
    let res = login(AuthInput { username: "bob".to_string(), password: "short".to_string() });
    assert!(res.is_err());
}

#[test]
fn process_names_trimmed_address_and_port() {
    let out = process(NetworkInput {
        address: "  127.0.0.1 ".to_string(),
        port: 8080,
        payload: Some("ping".to_string()),
    })
    .unwrap();
    assert!(out.ok);
    assert_eq!(out.message, "connected to 127.0.0.1:8080");
}

#[test]
fn process_refuses_blank_address() {
    match process(net(" \t ", 80)) {
        Err(SecurityError::InvalidInput(m)) => assert_eq!(m, "address empty"),
        other => panic!("unexpected {:?}", other),
    }
}

#[test]
fn process_refuses_port_zero_with_message() {
    match process(net("host", 0)) {
        Err(SecurityError::InvalidInput(m)) => assert_eq!(m, "port must be > 0"),
        other => panic!("unexpected {:?}", other),
    }
}

#[test]
fn put_refuses_blank_key_with_message() {
    match put(StorageInput { key: "   ".to_string(), value: "v".to_string() }) {
        Err(SecurityError::InvalidInput(m)) => assert_eq!(m, "empty key"),
        other => panic!("unexpected {:?}", other),
    }
    assert!(put(StorageInput { key: " user:1 ".to_string(), value: String::new() }).unwrap().stored);
}

#[test]
fn login_refuses_blank_username() {
    match login(AuthInput { username: "  ".to_string(), password: "password123".to_string() }) {
        Err(SecurityError::InvalidInput(m)) => assert_eq!(m, "username empty"),
        other => panic!("unexpected {:?}", other),
    }
}

#[test]
fn login_counts_password_bytes_after_trimming() {
    match login(AuthInput { username: "bob".to_string(), password: "  1234567  ".to_string() }) {
        Err(SecurityError::InvalidInput(m)) => assert_eq!(m, "password too short"),
        other => panic!("unexpected {:?}", other),
    }
    // four two-byte characters make eight bytes
    assert!(login(AuthInput { username: "bob".to_string(), password: "éééé".to_string() }).is_ok());
    assert!(login(AuthInput { username: "bob".to_string(), password: "12345678".to_string() }).is_ok());
}

#[test]
fn login_token_is_prefixed_uuid() {
    let t = login(AuthInput { username: "alice".to_string(), password: "s3cretp@ss".to_string() }).unwrap();
    assert_eq!(t.len(), 42);
    assert!(t.starts_with("token-"));
    let id: Vec<char> = t[6..].chars().collect();
    for (i, c) in id.iter().enumerate() {
        if i == 8 || i == 13 || i == 18 || i == 23 {
            assert_eq!(*c, '-');
        } else {
            assert!(c.is_ascii_hexdigit() && !c.is_ascii_uppercase());
        }
    }
    assert_eq!(id[14], '4');
    assert!("89ab".contains(id[19]));
    let t2 = login(AuthInput { username: "alice".to_string(), password: "s3cretp@ss".to_string() }).unwrap();
    assert_ne!(t, t2);
}

#[test]
fn storage_keys_follow_the_pattern() {
    assert!(is_valid_key("user:1:name"));
    assert!(is_valid_key("a-b_c.d"));
    assert!(!is_valid_key(""));
    assert!(!is_valid_key("bad key"));
    assert!(!is_valid_key("key/with/slash"));
    assert!(!is_valid_key("key\n"));
    assert!(!is_valid_key("k\u{e9}y"));
    assert!(is_valid_key("ABC:xyz.09"));
}

#[test]
fn security_errors_have_texts() {
    assert_eq!(SecurityError::InvalidInput("x".to_string()).to_text(), "invalid input: x");
    assert_eq!(SecurityError::Unauthorized.to_text(), "unauthorized");
    assert_eq!(SecurityError::Forbidden.to_text(), "forbidden");
    assert_eq!(SecurityError::InternalError("y".to_string()).to_text(), "internal error: y");
}
