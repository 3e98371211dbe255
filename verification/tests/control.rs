use things_api::control::cloudflare::{
    base64_encode, decode_envelope, dns_url, fill_from_seed, getrandom_fill, seed_from_clock, tunnel_cname,
    tunnel_url, tunnels_url, CfApiError, CfEnvelope, CfError, DnsRecord, TunnelCreated,
};
use things_api::control::signup::{
    validate_username, Cleanup, Next, Reply, Signup, SignupCall, SignupEvent, SignupRequest, Stage,
};

#[test]
fn username_rules() {
    assert_eq!(validate_username("alice"), Ok(()));
    assert_eq!(validate_username("a-1"), Ok(()));
    assert_eq!(
        validate_username("ab"),
        Err("username must be at least 3 characters".to_string())
    );
    assert_eq!(
        validate_username(&"a".repeat(33)),
        Err("username must be at most 32 characters".to_string())
    );
    assert!(validate_username(&"a".repeat(32)).is_ok());
    assert_eq!(
        validate_username("Alice"),
        Err("username may only contain a-z, 0-9, hyphen".to_string())
    );
    assert_eq!(
        validate_username("-abc"),
        Err("username may not begin or end with a hyphen".to_string())
    );
    assert_eq!(
        validate_username("abc-"),
        Err("username may not begin or end with a hyphen".to_string())
    );
    assert_eq!(validate_username("admin"), Err("username is reserved".to_string()));
    assert_eq!(validate_username("www"), Err("username is reserved".to_string()));
    // Length is counted in bytes: two two-byte letters pass the length rule
    // and fail the character rule.
    assert_eq!(
        validate_username("éé"),
        Err("username may only contain a-z, 0-9, hyphen".to_string())
    );
}

#[test]
fn base64_known_values() {
    assert_eq!(base64_encode(b""), "");
    assert_eq!(base64_encode(b"f"), "Zg==");
    assert_eq!(base64_encode(b"fo"), "Zm8=");
    assert_eq!(base64_encode(b"foo"), "Zm9v");
    assert_eq!(base64_encode(b"foobar"), "Zm9vYmFy");
    assert_eq!(base64_encode(&[0xff, 0xfe, 0xfd, 0x00]), "//79AA==");
    assert_eq!(base64_encode(&[0u8; 32]).len(), 44);
}

#[test]
fn secret_bytes_follow_the_generator() {
    let mut a = [0u8; 4];
    fill_from_seed(&mut a, 0);
    // First state: 1442695040888963407, bits 33..40.
    let mut s: u64 = 0;
    let mut expect = [0u8; 4];
    for b in expect.iter_mut() {
        s = s.wrapping_mul(6364136223846793005).wrapping_add(1442695040888963407);
        *b = (s >> 33) as u8;
    }
    assert_eq!(a, expect);
    let mut big = [0u8; 32];
    getrandom_fill(&mut big);
    assert_eq!(base64_encode(&big).len(), 44);
}

#[test]
fn cloudflare_urls() {
    assert_eq!(
        tunnels_url("acct"),
        "https://api.cloudflare.com/client/v4/accounts/acct/cfd_tunnel"
    );
    assert_eq!(
        tunnel_url("acct", "t1", "/token"),
        "https://api.cloudflare.com/client/v4/accounts/acct/cfd_tunnel/t1/token"
    );
    assert_eq!(
        dns_url("zone", "/r1"),
        "https://api.cloudflare.com/client/v4/zones/zone/dns_records/r1"
    );
    assert_eq!(tunnel_cname("uuid"), "uuid.cfargotunnel.com");
}

#[test]
fn envelope_reading() {
    let ok: CfEnvelope<String> = CfEnvelope { success: true, errors: vec![], result: Some("x".to_string()) };
    assert_eq!(decode_envelope("200 OK", ok).ok(), Some("x".to_string()));
    let missing: CfEnvelope<String> = CfEnvelope { success: true, errors: vec![], result: None };
    match decode_envelope("200 OK", missing) {
        Err(CfError::Api(m)) => assert_eq!(m, "missing result field"),
        _ => panic!("expected an API error"),
    }
    let bad: CfEnvelope<String> = CfEnvelope {
        success: false,
        errors: vec![
            CfApiError { code: 1003, message: "bad".to_string() },
            CfApiError { code: -2, message: "worse".to_string() },
        ],
        result: None,
    };
    match decode_envelope("400 Bad Request", bad) {
        Err(CfError::Api(m)) => assert_eq!(m, "status 400 Bad Request: [1003] bad; [-2] worse"),
        _ => panic!("expected an API error"),
    }
    assert_eq!(CfError::Api("x".to_string()).message(), "Cloudflare API error: x");
    assert_eq!(CfError::Http("down".to_string()).message(), "HTTP error: down");
}

fn request(name: &str) -> SignupRequest {
    SignupRequest { username: name.to_string(), email: Some("a@example.com".to_string()) }
}

#[test]
fn signup_refuses_bad_names() {
    let (s, step) = Signup::start(&request("  AB "), "example.io");
    assert_eq!(s.username, "ab");
    assert_eq!(s.stage, Stage::Done);
    match step.next {
        Next::Reply(r) => {
            assert_eq!(r.status(), 400);
            match r {
                Reply::BadRequest(m) => assert_eq!(m, "username must be at least 3 characters"),
                _ => panic!("expected 400"),
            }
        },
        _ => panic!("expected a reply"),
    }
}

#[test]
fn signup_happy_path() {
    let (mut s, step) = Signup::start(&request(" Alice "), "example.io");
    assert_eq!(s.hostname, "alice.example.io");
    match step.next {
        Next::Call(SignupCall::CheckTaken(u)) => assert_eq!(u, "alice"),
        _ => panic!("expected the name check"),
    }
    let step = s.advance(SignupEvent::Taken(Ok(false)));
    match step.next {
        Next::Call(SignupCall::CreateTunnel(n)) => assert_eq!(n, "things-api-alice"),
        _ => panic!("expected tunnel creation"),
    }
    let step = s.advance(SignupEvent::Tunnel(Ok(TunnelCreated { id: "t1".to_string(), token: "tok".to_string() })));
    match step.next {
        Next::Call(SignupCall::ConfigureTunnel { tunnel_id, hostname, service }) => {
            assert_eq!(tunnel_id, "t1");
            assert_eq!(hostname, "alice.example.io");
            assert_eq!(service, "http://localhost:3333");
        },
        _ => panic!("expected configuration"),
    }
    let step = s.advance(SignupEvent::Configured(Ok(())));
    match step.next {
        Next::Call(SignupCall::CreateDns { name, tunnel_id }) => {
            assert_eq!(name, "alice.example.io");
            assert_eq!(tunnel_id, "t1");
        },
        _ => panic!("expected DNS"),
    }
    let step = s.advance(SignupEvent::Dns(Ok(DnsRecord { id: "d1".to_string() })));
    match step.next {
        Next::Call(SignupCall::Insert { username, email, tunnel_id, token, dns_id }) => {
            assert_eq!(username, "alice");
            assert_eq!(email.as_deref(), Some("a@example.com"));
            assert_eq!((tunnel_id.as_str(), token.as_str(), dns_id.as_str()), ("t1", "tok", "d1"));
        },
        _ => panic!("expected insert"),
    }
    let step = s.advance(SignupEvent::Inserted(Ok(())));
    assert!(step.cleanup.is_empty());
    match step.next {
        Next::Reply(Reply::Created(r)) => {
            assert_eq!(r.username, "alice");
            assert_eq!(r.url, "https://alice.example.io");
            assert_eq!(r.tunnel_token, "tok");
        },
        _ => panic!("expected 201"),
    }
}

#[test]
fn signup_taken_name() {
    let (mut s, _) = Signup::start(&request("bob"), "example.io");
    let step = s.advance(SignupEvent::Taken(Ok(true)));
    match step.next {
        Next::Reply(r) => {
            assert_eq!(r.status(), 409);
            match r {
                Reply::Conflict(m) => assert_eq!(m, "username already taken"),
                _ => panic!(),
            }
        },
        _ => panic!("expected 409"),
    }
}

#[test]
fn signup_rolls_back_on_failure() {
    let (mut s, _) = Signup::start(&request("carol"), "example.io");
    s.advance(SignupEvent::Taken(Ok(false)));
    s.advance(SignupEvent::Tunnel(Ok(TunnelCreated { id: "t9".to_string(), token: "k".to_string() })));
    let step = s.advance(SignupEvent::Configured(Err(CfError::Api("nope".to_string()))));
    assert_eq!(step.cleanup.len(), 1);
    match &step.cleanup[0] {
        Cleanup::DeleteTunnel(id) => assert_eq!(id, "t9"),
        _ => panic!(),
    }
    match step.next {
        Next::Reply(Reply::ServerError(m)) => assert_eq!(m, "cloudflare configure: Cloudflare API error: nope"),
        _ => panic!("expected 500"),
    }

    let (mut s, _) = Signup::start(&request("dave"), "example.io");
    s.advance(SignupEvent::Taken(Ok(false)));
    s.advance(SignupEvent::Tunnel(Ok(TunnelCreated { id: "t2".to_string(), token: "k".to_string() })));
    s.advance(SignupEvent::Configured(Ok(())));
    s.advance(SignupEvent::Dns(Ok(DnsRecord { id: "d2".to_string() })));
    let step = s.advance(SignupEvent::Inserted(Err("UNIQUE constraint failed".to_string())));
    assert_eq!(step.cleanup.len(), 2);
    match (&step.cleanup[0], &step.cleanup[1]) {
        (Cleanup::DeleteDns(d), Cleanup::DeleteTunnel(t)) => {
            assert_eq!(d, "d2");
            assert_eq!(t, "t2");
        },
        _ => panic!("expected DNS then tunnel"),
    }
    match step.next {
        Next::Reply(Reply::ServerError(m)) => assert_eq!(m, "db insert: UNIQUE constraint failed"),
        _ => panic!("expected 500"),
    }
}

#[test]
fn signup_tunnel_errors() {
    let (mut s, _) = Signup::start(&request("erin"), "example.io");
    s.advance(SignupEvent::Taken(Ok(false)));
    let step = s.advance(SignupEvent::Tunnel(Err(CfError::Api("quota".to_string()))));
    assert!(step.cleanup.is_empty());
    match step.next {
        Next::Reply(Reply::ServerError(m)) => assert_eq!(m, "cloudflare: quota"),
        _ => panic!(),
    }
    let (mut s, _) = Signup::start(&request("erin"), "example.io");
    s.advance(SignupEvent::Taken(Ok(false)));
    let step = s.advance(SignupEvent::Tunnel(Err(CfError::Http("timeout".to_string()))));
    match step.next {
        Next::Reply(Reply::ServerError(m)) => assert_eq!(m, "cloudflare: HTTP error: timeout"),
        _ => panic!(),
    }
    let (mut s, _) = Signup::start(&request("erin"), "example.io");
    let step = s.advance(SignupEvent::Taken(Err("locked".to_string())));
    match step.next {
        Next::Reply(Reply::ServerError(m)) => assert_eq!(m, "db: locked"),
        _ => panic!(),
    }
}

#[test]
fn seeds_from_clock_readings() {
    assert_eq!(seed_from_clock(None), 0xC0FFEE);
    assert_eq!(seed_from_clock(Some((1u128 << 64) + 7)), 7);
    assert_eq!(seed_from_clock(Some(1_700_000_000_000_000_000)), 1_700_000_000_000_000_000);
}
