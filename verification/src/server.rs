//! The HTTP server's own decisions: which status an AppleScript failure
//! maps to, who is let in, the bearer token, and the public tunnel's URL.

use vstd::prelude::*;
use rand::Rng;
use crate::text::{chars_of, contains, contains_exec, find, find_in, is_whitespace, is_ws, push_str, string_from_chars, substring};

verus! {

/// The HTTP status for a failed AppleScript command: 404 when Things could
/// not find the object ("Can't get", "doesn't understand"), 500 otherwise.
pub open spec fn error_status(e: Seq<char>) -> u16 {
    if contains(e, "Can't get"@) || contains(e, "doesn't understand"@) {
        404
    } else {
        500
    }
}

fn has(v: &Vec<char>, t: &str) -> (b: bool)
    ensures
        b == contains(v@, t@),
{
    let tv = chars_of(t);
    contains_exec(v, &tv)
}

/// The HTTP status for the error text of a failed command (see [`error_status`]).
pub fn status_for_error(e: &str) -> (s: u16)
    ensures
        s == error_status(e@),
{
    let v = chars_of(e);
    if has(&v, "Can't get") || has(&v, "doesn't understand") {
        404
    } else {
        500
    }
}

/// Whether an `Authorization` header lets a request in: it must be exactly
/// "Bearer " and the token.
pub open spec fn authorized_spec(header: Option<Seq<char>>, token: Seq<char>) -> bool {
    match header {
        Some(h) => h == "Bearer "@ + token,
        None => false,
    }
}

/// Whether a request with this `Authorization` header (if any, as text) is let in.
pub fn is_authorized(header: Option<&str>, token: &str) -> (b: bool)
    ensures
        b == authorized_spec(
            match header {
                Some(h) => Some(h@),
                None => None,
            },
            token@,
        ),
{
    match header {
        None => false,
        Some(h) => {
            let mut want: Vec<char> = Vec::new();
            push_str(&mut want, "Bearer ");
            push_str(&mut want, token);
            let hv = chars_of(h);
            if hv.len() != want.len() {
                return false;
            }
            let mut i: usize = 0;
            while i < hv.len()
                invariant
                    i <= hv.len(),
                    hv.len() == want.len(),
                    hv@ == h@,
                    header == Some(h),
                    want@ == "Bearer "@ + token@,
                    forall|j: int| 0 <= j < i ==> hv@[j] == want@[j],
                decreases hv.len() - i,
            {
                if hv[i] != want[i] {
                    assert(hv@[i as int] != want@[i as int]);
                    return false;
                }
                i += 1;
            }
            assert(hv@ =~= want@);
            true
        },
    }
}

/// The lower-case hexadecimal digit of `d < 16`.
pub open spec fn hex_lower(d: int) -> char {
    if d < 10 {
        (48 + d) as char
    } else {
        (87 + d) as char
    }
}

/// Bytes in lower-case hexadecimal, two digits each.
pub open spec fn hex_text(b: Seq<u8>) -> Seq<char>
    decreases b.len(),
{
    if b.len() == 0 {
        Seq::empty()
    } else {
        hex_text(b.drop_last()) + seq![hex_lower(b.last() as int / 16), hex_lower(b.last() as int % 16)]
    }
}

/// The bearer token made of these bytes: "thingsapi_" and their hex digits.
pub open spec fn token_of(b: Seq<u8>) -> Seq<char> {
    "thingsapi_"@ + hex_text(b)
}

fn hex_digit(d: u8) -> (c: char)
    requires
        d < 16,
    ensures
        c == hex_lower(d as int),
{
    if d < 10 {
        (48 + d) as char
    } else {
        (87 + d) as char
    }
}

/// The bearer token for the bytes `bytes` (see [`token_of`]).
pub fn token_from_bytes(bytes: &[u8]) -> (t: String)
    ensures
        t@ == token_of(bytes@),
{
    let mut out: Vec<char> = Vec::new();
    push_str(&mut out, "thingsapi_");
    let ghost head = out@;
    let mut i: usize = 0;
    while i < bytes.len()
        invariant
            i <= bytes.len(),
            head == "thingsapi_"@,
            out@ == head + hex_text(bytes@.take(i as int)),
        decreases bytes.len() - i,
    {
        let b = bytes[i];
        out.push(hex_digit(b / 16));
        out.push(hex_digit(b % 16));
        assert(bytes@.take(i + 1).drop_last() =~= bytes@.take(i as int));
        assert(out@ =~= head + hex_text(bytes@.take(i + 1)));
        i += 1;
    }
    assert(bytes@.take(bytes.len() as int) =~= bytes@);
    string_from_chars(out.as_slice())
}

/// 24 random bytes.
///
/// Trusted: calls `rand::rng()` and `Rng::random` (rand), the thread's
/// cryptographically secure generator. Nothing is stated of the bytes:
/// they are chance.
#[verifier::external_body]
fn random_bytes() -> [u8; 24] {
    rand::rng().random()
}

/// Whether `t` is a token as [`generate_token`] makes them: "thingsapi_" and
/// 48 lower-case hexadecimal digits.
pub open spec fn is_token(t: Seq<char>) -> bool {
    exists|b: Seq<u8>| b.len() == 24 && t == #[trigger] token_of(b)
}

/// A fresh bearer token from 24 random bytes.
pub fn generate_token() -> (t: String)
    ensures
        is_token(t@),
{
    let bytes = random_bytes();
    let t = token_from_bytes(&bytes);
    assert(token_of(bytes@) == t@);
    t
}

/// The server's token: the one given in the environment, else a fresh one.
pub fn resolve_token(from_env: Option<String>) -> (t: String)
    ensures
        match from_env {
            Some(e) => t@ == e@,
            None => is_token(t@),
        },
{
    match from_env {
        Some(e) => e,
        None => generate_token(),
    }
}

/// The bearer token to use, given the one stored on disk (if any), and
/// whether it is new and must be stored.
pub fn ensure_auth_token(stored: Option<String>) -> (r: (String, bool))
    ensures
        match stored {
            Some(s) => r.0@ == s@ && !r.1,
            None => is_token(r.0@) && r.1,
        },
{
    match stored {
        Some(s) => (s, false),
        None => (generate_token(), true),
    }
}

/// The end of the run of non-whitespace characters of `s` from `i`.
pub open spec fn word_end(s: Seq<char>, i: int) -> int
    decreases s.len() - i,
{
    if i >= s.len() || is_ws(s[i]) {
        i
    } else {
        word_end(s, i + 1)
    }
}

/// The tunnel URL a line of `cloudflared`'s log announces: the word that
/// starts at the first "https://", when it contains ".trycloudflare.com".
pub open spec fn tunnel_url_of(line: Seq<char>) -> Option<Seq<char>> {
    match find(line, "https://"@) {
        Some(i) => {
            let url = line.subrange(i, word_end(line, i));
            if contains(url, ".trycloudflare.com"@) {
                Some(url)
            } else {
                None
            }
        },
        None => None,
    }
}

/// The public URL a line of `cloudflared`'s log announces, if any.
pub fn tunnel_url_in_line(line: &str) -> (r: Option<String>)
    ensures
        r.deep_view() == tunnel_url_of(line@),
{
    let v = chars_of(line);
    let pat = chars_of("https://");
    match find_in(&v, &pat) {
        None => None,
        Some(i) => {
            let mut j = i;
            while j < v.len() && !is_whitespace(v[j])
                invariant
                    i <= j <= v.len(),
                    word_end(v@, i as int) == word_end(v@, j as int),
                decreases v.len() - j,
            {
                j += 1;
            }
            let url = substring(&v, i, j);
            let uv = chars_of(url.as_str());
            let dom = chars_of(".trycloudflare.com");
            if contains_exec(&uv, &dom) {
                Some(url)
            } else {
                None
            }
        },
    }
}

/// Where `cloudflared` is downloaded from for an operating system and
/// processor (as Rust names them); `None` for the platforms it is not
/// offered for.
pub open spec fn download_url_spec(os: Seq<char>, arch: Seq<char>) -> Option<Seq<char>> {
    if os == "macos"@ && arch == "aarch64"@ {
        Some("https://github.com/cloudflare/cloudflared/releases/latest/download/cloudflared-darwin-arm64.tgz"@)
    } else if os == "macos"@ && arch == "x86_64"@ {
        Some("https://github.com/cloudflare/cloudflared/releases/latest/download/cloudflared-darwin-amd64.tgz"@)
    } else if os == "linux"@ && arch == "aarch64"@ {
        Some("https://github.com/cloudflare/cloudflared/releases/latest/download/cloudflared-linux-arm64"@)
    } else if os == "linux"@ && arch == "x86_64"@ {
        Some("https://github.com/cloudflare/cloudflared/releases/latest/download/cloudflared-linux-amd64"@)
    } else {
        None
    }
}

/// The `cloudflared` download for a platform (see [`download_url_spec`]).
pub fn download_url(os: &str, arch: &str) -> (r: Option<&'static str>)
    ensures
        match r {
            Some(u) => download_url_spec(os@, arch@) == Some(u@),
            None => download_url_spec(os@, arch@) is None,
        },
{
    let mac = crate::text::str_eq(os, "macos");
    let linux = crate::text::str_eq(os, "linux");
    let arm = crate::text::str_eq(arch, "aarch64");
    let x86 = crate::text::str_eq(arch, "x86_64");
    if mac && arm {
        Some("https://github.com/cloudflare/cloudflared/releases/latest/download/cloudflared-darwin-arm64.tgz")
    } else if mac && x86 {
        Some("https://github.com/cloudflare/cloudflared/releases/latest/download/cloudflared-darwin-amd64.tgz")
    } else if linux && arm {
        Some("https://github.com/cloudflare/cloudflared/releases/latest/download/cloudflared-linux-arm64")
    } else if linux && x86 {
        Some("https://github.com/cloudflare/cloudflared/releases/latest/download/cloudflared-linux-amd64")
    } else {
        None
    }
}

/// The account this Mac signed up with, as stored beside the token.
#[derive(Debug, Clone)]
pub struct Account {
    pub username: String,
    pub url: String,
    pub tunnel_token: String,
    pub control_plane_url: String,
    pub created_at: String,
}

/// Quitting Things 3 over the API needs `confirm: true`; otherwise the
/// request is refused with this reason.
pub fn check_quit(confirm: bool) -> (r: Result<(), String>)
    ensures
        match r {
            Ok(_) => confirm,
            Err(m) => !confirm && m@ == "confirm must be true to quit Things 3"@,
        },
{
    if confirm {
        Ok(())
    } else {
        Err(String::from_str("confirm must be true to quit Things 3"))
    }
}

} // verus!
