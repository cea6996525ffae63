use kehrkraft::config::{
    after_bind_failure, bind_port, bind_start, demo_mode_from_value, port_file_text,
    port_from_value, save_bound_port, saved_port_from_text, BindRetry, BindState,
};

#[test]
fn save_and_read_roundtrip() {
    let text = port_file_text(54321);
    assert_eq!(saved_port_from_text(&text), Some(54321));
}

#[test]
fn invalid_content_yields_none() {
    assert_eq!(saved_port_from_text("not-a-port\n"), None);
    assert_eq!(saved_port_from_text(""), None);
}

#[test]
fn overwrite_replaces_previous_port() {
    let first = port_file_text(10000);
    let second = port_file_text(20000);
    assert_eq!(saved_port_from_text(&first), Some(10000));
    assert_eq!(saved_port_from_text(&second), Some(20000));
}

#[test]
fn port_values_parse_like_u16() {
    assert_eq!(port_from_value("8080"), Some(8080));
    assert_eq!(port_from_value("+80"), Some(80));
    assert_eq!(port_from_value("65535"), Some(65535));
    assert_eq!(port_from_value("65536"), None);
    assert_eq!(port_from_value(" 80"), None);
    assert_eq!(port_from_value("-1"), None);
    assert_eq!(port_from_value(""), None);
    assert_eq!(saved_port_from_text(" 8080\n"), Some(8080));
    for p in [0u16, 1, 9, 10, 65535] {
        assert_eq!(saved_port_from_text(&port_file_text(p)), Some(p));
    }
}

#[test]
fn demo_mode_values() {
    for on in ["true", "1", "yes", "on", " TRUE ", "Yes", "oN\n"] {
        assert!(demo_mode_from_value(Some(on)), "{on:?}");
    }
    for off in ["false", "0", "no", "", "ja", "truee"] {
        assert!(!demo_mode_from_value(Some(off)), "{off:?}");
    }
    assert!(!demo_mode_from_value(None));
}

#[test]
fn binding_falls_back_from_saved_to_ephemeral() {
    assert_eq!(bind_start(Some(8080), Some(1234)), BindState::Configured { port: 8080 });
    assert_eq!(after_bind_failure(BindState::Configured { port: 8080 }), BindRetry::GiveUp);
    let mut state = bind_start(None, Some(1234));
    let mut waits = 0;
    loop {
        assert_eq!(bind_port(state), 1234);
        match after_bind_failure(state) {
            BindRetry::WaitThen(next) => {
                waits += 1;
                state = next;
            }
            BindRetry::Then(next) => {
                state = next;
                break;
            }
            BindRetry::GiveUp => panic!("saved port must fall back"),
        }
    }
    assert_eq!(waits, 4);
    assert_eq!(state, BindState::Ephemeral);
    assert_eq!(bind_port(state), 0);
    assert!(save_bound_port(state));
    assert!(!save_bound_port(BindState::Saved { port: 1, attempt: 1 }));
    assert_eq!(bind_start(None, None), BindState::Ephemeral);
    assert_eq!(after_bind_failure(BindState::Ephemeral), BindRetry::GiveUp);
}
