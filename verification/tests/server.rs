use things_api::server::{
    download_url, ensure_auth_token, generate_token, is_authorized, resolve_token,
    status_for_error, token_from_bytes, tunnel_url_in_line,
};

#[test]
fn not_found_errors() {
    assert_eq!(status_for_error("Things3 got an error: Can't get to do id \"x\"."), 404);
    assert_eq!(status_for_error("to do doesn't understand the message"), 404);
    assert_eq!(status_for_error("execution error: timeout"), 500);
    assert_eq!(status_for_error(""), 500);
}

#[test]
fn bearer_check() {
    assert!(is_authorized(Some("Bearer abc"), "abc"));
    assert!(!is_authorized(Some("Bearer abcd"), "abc"));
    assert!(!is_authorized(Some("bearer abc"), "abc"));
    assert!(!is_authorized(Some("abc"), "abc"));
    assert!(!is_authorized(None, "abc"));
}

#[test]
fn token_format() {
    assert_eq!(token_from_bytes(&[0x00, 0x0f, 0xa0, 0xff]), "thingsapi_000fa0ff");
    let t = generate_token();
    assert_eq!(t.len(), "thingsapi_".len() + 48);
    assert!(t.starts_with("thingsapi_"));
    assert!(t["thingsapi_".len()..].chars().all(|c| c.is_ascii_hexdigit() && !c.is_ascii_uppercase()));
    assert_ne!(generate_token(), generate_token());
}

#[test]
fn token_sources() {
    assert_eq!(resolve_token(Some("given".to_string())), "given");
    assert!(resolve_token(None).starts_with("thingsapi_"));
    assert_eq!(ensure_auth_token(Some("stored".to_string())), ("stored".to_string(), false));
    let (t, fresh) = ensure_auth_token(None);
    assert!(fresh);
    assert!(t.starts_with("thingsapi_"));
}

#[test]
fn tunnel_url_lines() {
    assert_eq!(
        tunnel_url_in_line("2024 INF |  https://quiet-sun-1.trycloudflare.com  |"),
        Some("https://quiet-sun-1.trycloudflare.com".to_string())
    );
    assert_eq!(tunnel_url_in_line("see https://github.com/cloudflare for docs"), None);
    assert_eq!(tunnel_url_in_line("no url here"), None);
    assert_eq!(
        tunnel_url_in_line("https://a.trycloudflare.com"),
        Some("https://a.trycloudflare.com".to_string())
    );
}

#[test]
fn cloudflared_downloads() {
    assert_eq!(
        download_url("macos", "aarch64"),
        Some("https://github.com/cloudflare/cloudflared/releases/latest/download/cloudflared-darwin-arm64.tgz")
    );
    assert_eq!(
        download_url("linux", "x86_64"),
        Some("https://github.com/cloudflare/cloudflared/releases/latest/download/cloudflared-linux-amd64")
    );
    assert_eq!(download_url("windows", "x86_64"), None);
}
