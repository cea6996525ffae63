use kehrkraft::web::guard::{basic_auth_granted, insert_demo_banner, rate_limit_step, DEMO_BANNER_HTML};

#[test]
fn banner_goes_after_the_body_tag() {
    let page = b"<html><body class=\"x\"><p>hi</p></body></html>";
    let out = insert_demo_banner(page);
    let expected = format!(
        "<html><body class=\"x\">{DEMO_BANNER_HTML}<p>hi</p></body></html>"
    );
    assert_eq!(out, expected.as_bytes());
}

#[test]
fn partials_without_body_pass_through() {
    let partial = b"<tr><td>1</td></tr>";
    assert_eq!(insert_demo_banner(partial), partial.to_vec());
    assert_eq!(insert_demo_banner(b""), Vec::<u8>::new());
    // A `<body` without a closing `>` is left alone.
    assert_eq!(insert_demo_banner(b"<body"), b"<body".to_vec());
    // Only the first `<body` counts.
    let twice = b"<body><body>";
    let out = insert_demo_banner(twice);
    assert_eq!(out, format!("<body>{DEMO_BANNER_HTML}<body>").as_bytes());
}

#[test]
fn basic_auth_checks_user_and_password() {
    // "admin:secret"
    let good = "Basic YWRtaW46c2VjcmV0";
    assert!(basic_auth_granted(Some(good), "admin", "secret"));
    assert!(!basic_auth_granted(Some(good), "admin", "other"));
    assert!(!basic_auth_granted(Some(good), "root", "secret"));
    assert!(!basic_auth_granted(None, "admin", "secret"));
    assert!(!basic_auth_granted(Some("Bearer YWRtaW46c2VjcmV0"), "admin", "secret"));
    assert!(!basic_auth_granted(Some("Basic !!!"), "admin", "secret"));
    // "admin:sec:ret" splits at the first colon.
    assert!(basic_auth_granted(Some("Basic YWRtaW46c2VjOnJldA=="), "admin", "sec:ret"));
    // "adminsecret" has no colon.
    assert!(!basic_auth_granted(Some("Basic YWRtaW5zZWNyZXQ="), "adminsecret", ""));
}

#[test]
fn thirty_requests_per_window_pass() {
    let mut count = 0;
    for k in 1..=31u32 {
        let (next, allowed) = rate_limit_step(count, false);
        assert_eq!(next, k);
        assert_eq!(allowed, k <= 30);
        count = next;
    }
    assert_eq!(rate_limit_step(count, true), (1, true));
}
