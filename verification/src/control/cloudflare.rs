//! What the control plane reads from and sends to the Cloudflare API: the
//! endpoints' URLs, the reply envelope, the random tunnel secret and its
//! base64 form.

use vstd::prelude::*;
use crate::script::join;
use crate::text::{dec_int, push_dec_i64, push_str, string_from_chars};

verus! {

/// A failed Cloudflare call.
#[derive(Debug, Clone)]
pub enum CfError {
    /// The HTTP request failed; the text is the transport's message.
    Http(String),
    /// Cloudflare answered with an error, or with a reply that could not be read.
    Api(String),
}

/// The view of a [`CfError`].
pub enum CfErrorV {
    Http(Seq<char>),
    Api(Seq<char>),
}

impl View for CfError {
    type V = CfErrorV;

    open spec fn view(&self) -> CfErrorV {
        match self {
            CfError::Http(m) => CfErrorV::Http(m@),
            CfError::Api(m) => CfErrorV::Api(m@),
        }
    }
}

/// How a Cloudflare error reads.
pub open spec fn cf_error_text(e: CfErrorV) -> Seq<char> {
    match e {
        CfErrorV::Http(m) => "HTTP error: "@ + m,
        CfErrorV::Api(m) => "Cloudflare API error: "@ + m,
    }
}

impl CfError {
    /// How the error reads ("HTTP error: ..." or "Cloudflare API error: ...").
    pub fn message(&self) -> (r: String)
        ensures
            r@ == cf_error_text(self@),
    {
        let mut out: Vec<char> = Vec::new();
        match self {
            CfError::Http(m) => {
                push_str(&mut out, "HTTP error: ");
                push_str(&mut out, m.as_str());
            },
            CfError::Api(m) => {
                push_str(&mut out, "Cloudflare API error: ");
                push_str(&mut out, m.as_str());
            },
        }
        string_from_chars(out.as_slice())
    }
}

/// A tunnel Cloudflare created: its id, and the token its connector runs with.
#[derive(Debug, Clone)]
pub struct TunnelCreated {
    pub id: String,
    pub token: String,
}

/// A DNS record Cloudflare created.
#[derive(Debug, Clone)]
pub struct DnsRecord {
    pub id: String,
}

/// One error in a Cloudflare reply.
#[derive(Debug, Clone)]
pub struct CfApiError {
    pub code: i64,
    pub message: String,
}

/// Every Cloudflare reply: whether the call succeeded, the errors, the result.
#[derive(Debug)]
pub struct CfEnvelope<T> {
    pub success: bool,
    pub errors: Vec<CfApiError>,
    pub result: Option<T>,
}

/// One error as the control plane reports it: "[code] message".
pub open spec fn api_error_text(e: CfApiError) -> Seq<char> {
    "["@ + dec_int(e.code as int) + "] "@ + e.message@
}

/// The errors of a reply, each as "[code] message", joined with "; ".
pub open spec fn errors_text(errs: Seq<CfApiError>) -> Seq<char> {
    join(errs.map_values(|e: CfApiError| api_error_text(e)), "; "@)
}

/// What a reply with HTTP status `status` (as the status line reads, such
/// as "400 Bad Request") comes to: its result when the call succeeded and
/// there is one, else an API error.
pub open spec fn envelope_outcome<T>(status: Seq<char>, success: bool, errs: Seq<CfApiError>, result: Option<T>) -> Result<T, CfErrorV> {
    if !success {
        Err(CfErrorV::Api("status "@ + status + ": "@ + errors_text(errs)))
    } else {
        match result {
            Some(t) => Ok(t),
            None => Err(CfErrorV::Api("missing result field"@)),
        }
    }
}

/// Reads a Cloudflare reply (see [`envelope_outcome`]).
pub fn decode_envelope<T>(status: &str, env: CfEnvelope<T>) -> (r: Result<T, CfError>)
    ensures
        match (r, envelope_outcome(status@, env.success, env.errors@, env.result)) {
            (Ok(a), Ok(b)) => a == b,
            (Err(a), Err(b)) => a@ == b,
            _ => false,
        },
{
    if !env.success {
        let ghost errs = env.errors@;
        let mut out: Vec<char> = Vec::new();
        push_str(&mut out, "status ");
        push_str(&mut out, status);
        push_str(&mut out, ": ");
        let ghost head = out@;
        let mut i: usize = 0;
        while i < env.errors.len()
            invariant
                i <= env.errors.len(),
                errs == env.errors@,
                out@ == head + join(errs.take(i as int).map_values(|e: CfApiError| api_error_text(e)), "; "@),
            decreases env.errors.len() - i,
        {
            let ghost before = out@;
            if i > 0 {
                push_str(&mut out, "; ");
            }
            push_str(&mut out, "[");
            push_dec_i64(&mut out, env.errors[i].code);
            push_str(&mut out, "] ");
            push_str(&mut out, env.errors[i].message.as_str());
            proof {
                let m = errs.take(i + 1).map_values(|e: CfApiError| api_error_text(e));
                assert(m.drop_last() =~= errs.take(i as int).map_values(|e: CfApiError| api_error_text(e)));
                assert(m.last() == api_error_text(errs[i as int]));
                if i == 0 {
                    assert(out@ =~= head + m[0]);
                } else {
                    assert(out@ =~= before + "; "@ + m.last());
                }
            }
            i += 1;
        }
        assert(errs.take(env.errors.len() as int) =~= errs);
        return Err(CfError::Api(string_from_chars(out.as_slice())));
    }
    match env.result {
        Some(t) => Ok(t),
        None => Err(CfError::Api(String::from_str("missing result field"))),
    }
}

/// The base of the Cloudflare API.
pub open spec fn api_base() -> Seq<char> {
    "https://api.cloudflare.com/client/v4"@
}

/// The URL that creates a tunnel in an account.
pub open spec fn tunnels_url_spec(account: Seq<char>) -> Seq<char> {
    api_base() + "/accounts/"@ + account + "/cfd_tunnel"@
}

/// The URL that creates a tunnel in `account_id`.
pub fn tunnels_url(account_id: &str) -> (r: String)
    ensures
        r@ == tunnels_url_spec(account_id@),
{
    let mut out: Vec<char> = Vec::new();
    push_str(&mut out, "https://api.cloudflare.com/client/v4/accounts/");
    push_str(&mut out, account_id);
    push_str(&mut out, "/cfd_tunnel");
    proof {
        reveal_strlit("https://api.cloudflare.com/client/v4/accounts/");
        reveal_strlit("https://api.cloudflare.com/client/v4");
        reveal_strlit("/accounts/");
    }
    assert(out@ =~= tunnels_url_spec(account_id@));
    string_from_chars(out.as_slice())
}

/// The URL of one tunnel, followed by `suffix` ("", "/token" or "/configurations").
pub open spec fn tunnel_url_spec(account: Seq<char>, tunnel: Seq<char>, suffix: Seq<char>) -> Seq<char> {
    tunnels_url_spec(account) + "/"@ + tunnel + suffix
}

/// The URL of tunnel `tunnel_id` in `account_id`, followed by `suffix`.
pub fn tunnel_url(account_id: &str, tunnel_id: &str, suffix: &str) -> (r: String)
    ensures
        r@ == tunnel_url_spec(account_id@, tunnel_id@, suffix@),
{
    let mut out: Vec<char> = Vec::new();
    push_str(&mut out, "https://api.cloudflare.com/client/v4/accounts/");
    push_str(&mut out, account_id);
    push_str(&mut out, "/cfd_tunnel/");
    push_str(&mut out, tunnel_id);
    push_str(&mut out, suffix);
    proof {
        reveal_strlit("https://api.cloudflare.com/client/v4/accounts/");
        reveal_strlit("https://api.cloudflare.com/client/v4");
        reveal_strlit("/accounts/");
        reveal_strlit("/cfd_tunnel/");
        reveal_strlit("/cfd_tunnel");
        reveal_strlit("/");
    }
    assert(out@ =~= tunnel_url_spec(account_id@, tunnel_id@, suffix@));
    string_from_chars(out.as_slice())
}

/// The URL of a zone's DNS records, followed by `suffix` ("" or "/" and a record id).
pub open spec fn dns_url_spec(zone: Seq<char>, suffix: Seq<char>) -> Seq<char> {
    api_base() + "/zones/"@ + zone + "/dns_records"@ + suffix
}

/// The URL of the DNS records of `zone_id`, followed by `suffix`.
pub fn dns_url(zone_id: &str, suffix: &str) -> (r: String)
    ensures
        r@ == dns_url_spec(zone_id@, suffix@),
{
    let mut out: Vec<char> = Vec::new();
    push_str(&mut out, "https://api.cloudflare.com/client/v4/zones/");
    push_str(&mut out, zone_id);
    push_str(&mut out, "/dns_records");
    push_str(&mut out, suffix);
    proof {
        reveal_strlit("https://api.cloudflare.com/client/v4/zones/");
        reveal_strlit("https://api.cloudflare.com/client/v4");
        reveal_strlit("/zones/");
    }
    assert(out@ =~= dns_url_spec(zone_id@, suffix@));
    string_from_chars(out.as_slice())
}

/// The CNAME target of a tunnel: "<id>.cfargotunnel.com".
pub open spec fn cname_target(tunnel: Seq<char>) -> Seq<char> {
    tunnel + ".cfargotunnel.com"@
}

/// The CNAME target of tunnel `tunnel_id`.
pub fn tunnel_cname(tunnel_id: &str) -> (r: String)
    ensures
        r@ == cname_target(tunnel_id@),
{
    let mut out: Vec<char> = Vec::new();
    push_str(&mut out, tunnel_id);
    push_str(&mut out, ".cfargotunnel.com");
    string_from_chars(out.as_slice())
}

/// The multiplier and increment of the secret's generator (Knuth's MMIX
/// linear congruential generator).
pub open spec fn lcg_step(s: u64) -> u64 {
    s.wrapping_mul(6364136223846793005).wrapping_add(1442695040888963407)
}

/// The generator's state after `k` steps from `seed`.
pub open spec fn lcg_state(seed: u64, k: nat) -> u64
    decreases k,
{
    if k == 0 {
        seed
    } else {
        lcg_step(lcg_state(seed, (k - 1) as nat))
    }
}

/// Byte `i` of the secret from `seed`: bits 33 to 40 of the state after
/// `i + 1` steps.
pub open spec fn secret_byte(seed: u64, i: nat) -> u8 {
    (lcg_state(seed, i + 1) >> 33u64) as u8
}

/// `b` holds the generator's bytes from `seed`.
pub open spec fn filled_from(b: Seq<u8>, seed: u64) -> bool {
    forall|i: int| 0 <= i < b.len() ==> #[trigger] b[i] == secret_byte(seed, i as nat)
}

/// Fills `buf` with the generator's bytes from `seed` (see [`secret_byte`]).
pub fn fill_from_seed(buf: &mut [u8], seed: u64)
    ensures
        final(buf)@.len() == old(buf)@.len(),
        filled_from(final(buf)@, seed),
{
    let mut s = seed;
    let mut i: usize = 0;
    while i < buf.len()
        invariant
            i <= buf.len(),
            buf@.len() == old(buf)@.len(),
            s == lcg_state(seed, i as nat),
            forall|j: int| 0 <= j < i ==> #[trigger] buf@[j] == secret_byte(seed, j as nat),
        decreases buf.len() - i,
    {
        s = s.wrapping_mul(6364136223846793005).wrapping_add(1442695040888963407);
        buf[i] = (s >> 33) as u8;
        i += 1;
    }
}

/// Nanoseconds since the Unix epoch by the system clock, `None` where the
/// clock reads before the epoch.
///
/// Trusted: reads `SystemTime::now()`, its `duration_since(UNIX_EPOCH)` and
/// `Duration::as_nanos` (std). Nothing is stated of the result: it is the time.
#[verifier::external_body]
fn clock_nanos() -> Option<u128> {
    match std::time::SystemTime::now().duration_since(std::time::UNIX_EPOCH) {
        Ok(d) => Some(d.as_nanos()),
        Err(_) => None,
    }
}

/// The generator's seed for a clock reading: the nanoseconds cut to their low
/// 64 bits, and 0xC0FFEE where the clock read before the epoch.
pub open spec fn seed_of(nanos: Option<u128>) -> u64 {
    match nanos {
        Some(n) => n as u64,
        None => 0xC0FFEEu64,
    }
}

/// The generator's seed for a clock reading (see [`seed_of`]).
pub fn seed_from_clock(nanos: Option<u128>) -> (s: u64)
    ensures
        s == seed_of(nanos),
{
    match nanos {
        Some(n) => n as u64,
        None => 0xC0FFEE,
    }
}

/// Fills `buf` with bytes good enough for a tunnel secret, from a seed read
/// off the clock.
pub fn getrandom_fill(buf: &mut [u8])
    ensures
        final(buf)@.len() == old(buf)@.len(),
        exists|nanos: Option<u128>| #[trigger] filled_from(final(buf)@, seed_of(nanos)),
{
    let nanos = clock_nanos();
    let seed = seed_from_clock(nanos);
    fill_from_seed(buf, seed);
    assert(filled_from(buf@, seed_of(nanos)));
}

/// The base64 digit for a value below 64.
pub open spec fn b64_digit(v: int) -> char {
    if v < 26 {
        (65 + v) as char
    } else if v < 52 {
        (97 + v - 26) as char
    } else if v < 62 {
        (48 + v - 52) as char
    } else if v == 62 {
        '+'
    } else {
        '/'
    }
}

/// The four digits of three bytes.
pub open spec fn b64_group(a: int, b: int, c: int) -> Seq<char> {
    seq![b64_digit(a / 4), b64_digit((a % 4) * 16 + b / 16), b64_digit((b % 16) * 4 + c / 64), b64_digit(c % 64)]
}

/// Standard base64 with `=` padding, as RFC 4648 defines it.
pub open spec fn base64(bytes: Seq<u8>) -> Seq<char>
    decreases bytes.len(),
{
    if bytes.len() >= 3 {
        b64_group(bytes[0] as int, bytes[1] as int, bytes[2] as int) + base64(bytes.subrange(3, bytes.len() as int))
    } else if bytes.len() == 2 {
        seq![
            b64_digit(bytes[0] as int / 4),
            b64_digit((bytes[0] as int % 4) * 16 + bytes[1] as int / 16),
            b64_digit((bytes[1] as int % 16) * 4),
            '=',
        ]
    } else if bytes.len() == 1 {
        seq![b64_digit(bytes[0] as int / 4), b64_digit((bytes[0] as int % 4) * 16), '=', '=']
    } else {
        Seq::empty()
    }
}

/// Base64 takes four characters for every three bytes or part of three.
pub proof fn law_base64_len(bytes: Seq<u8>)
    ensures
        base64(bytes).len() == 4 * ((bytes.len() + 2) / 3),
    decreases bytes.len(),
{
    if bytes.len() >= 3 {
        law_base64_len(bytes.subrange(3, bytes.len() as int));
    }
}

/// The base64 alphabet is the standard one: `A`-`Z`, `a`-`z`, `0`-`9`, `+`
/// and `/` for the values 0 to 63 in order, and different values get
/// different digits.
pub proof fn law_base64_alphabet()
    ensures
        forall|v: int| 0 <= v < 26 ==> #[trigger] b64_digit(v) as int == 'A' as int + v,
        forall|v: int| 26 <= v < 52 ==> #[trigger] b64_digit(v) as int == 'a' as int + (v - 26),
        forall|v: int| 52 <= v < 62 ==> #[trigger] b64_digit(v) as int == '0' as int + (v - 52),
        b64_digit(62) == '+',
        b64_digit(63) == '/',
        forall|v: int, w: int| 0 <= v < 64 && 0 <= w < 64 && v != w ==> #[trigger] b64_digit(v) != #[trigger] b64_digit(w),
{
}

fn b64_digit_exec(v: u32) -> (c: char)
    requires
        v < 64,
    ensures
        c == b64_digit(v as int),
{
    if v < 26 {
        ((65 + v) as u8) as char
    } else if v < 52 {
        ((97 + v - 26) as u8) as char
    } else if v < 62 {
        ((48 + v - 52) as u8) as char
    } else if v == 62 {
        '+'
    } else {
        '/'
    }
}

proof fn lemma_group_bits(a: u32, b: u32, c: u32)
    by (bit_vector)
    requires
        a < 256,
        b < 256,
        c < 256,
    ensures
        ({
            let n = (a << 16u32) | (b << 8u32) | c;
            &&& (n >> 18u32) & 0x3f == a / 4
            &&& (n >> 12u32) & 0x3f == (a % 4) * 16 + b / 16
            &&& (n >> 6u32) & 0x3f == (b % 16) * 4 + c / 64
            &&& n & 0x3f == c % 64
        }),
{
}

proof fn lemma_two_bits(a: u32, b: u32)
    by (bit_vector)
    requires
        a < 256,
        b < 256,
    ensures
        ({
            let n = (a << 16u32) | (b << 8u32);
            &&& (n >> 18u32) & 0x3f == a / 4
            &&& (n >> 12u32) & 0x3f == (a % 4) * 16 + b / 16
            &&& (n >> 6u32) & 0x3f == (b % 16) * 4
        }),
{
}

proof fn lemma_one_bits(a: u32)
    by (bit_vector)
    requires
        a < 256,
    ensures
        ({
            let n = a << 16u32;
            &&& (n >> 18u32) & 0x3f == a / 4
            &&& (n >> 12u32) & 0x3f == (a % 4) * 16
        }),
{
}

/// The bytes in standard base64 with `=` padding.
pub fn base64_encode(bytes: &[u8]) -> (r: String)
    ensures
        r@ == base64(bytes@),
{
    let mut out: Vec<char> = Vec::new();
    let mut i: usize = 0;
    assert(bytes@.subrange(0, bytes@.len() as int) =~= bytes@);
    while bytes.len() - i >= 3
        invariant
            i <= bytes.len(),
            out@ + base64(bytes@.subrange(i as int, bytes@.len() as int)) == base64(bytes@),
        decreases bytes.len() - i,
    {
        let a = bytes[i] as u32;
        let b = bytes[i + 1] as u32;
        let c = bytes[i + 2] as u32;
        let n: u32 = (a << 16) | (b << 8) | c;
        proof {
            lemma_group_bits(a, b, c);
        }
        let ghost rest = bytes@.subrange(i as int, bytes@.len() as int);
        let ghost before = out@;
        out.push(b64_digit_exec((n >> 18) & 0x3f));
        out.push(b64_digit_exec((n >> 12) & 0x3f));
        out.push(b64_digit_exec((n >> 6) & 0x3f));
        out.push(b64_digit_exec(n & 0x3f));
        proof {
            assert(rest.subrange(3, rest.len() as int) =~= bytes@.subrange(i + 3, bytes@.len() as int));
            assert(out@ =~= before + b64_group(a as int, b as int, c as int));
        }
        i += 3;
    }
    let rem = bytes.len() - i;
    let ghost rest = bytes@.subrange(i as int, bytes@.len() as int);
    if rem == 1 {
        let a = bytes[i] as u32;
        let n: u32 = a << 16;
        proof {
            lemma_one_bits(a);
        }
        out.push(b64_digit_exec((n >> 18) & 0x3f));
        out.push(b64_digit_exec((n >> 12) & 0x3f));
        out.push('=');
        out.push('=');
    } else if rem == 2 {
        let a = bytes[i] as u32;
        let b = bytes[i + 1] as u32;
        let n: u32 = (a << 16) | (b << 8);
        proof {
            lemma_two_bits(a, b);
        }
        out.push(b64_digit_exec((n >> 18) & 0x3f));
        out.push(b64_digit_exec((n >> 12) & 0x3f));
        out.push(b64_digit_exec((n >> 6) & 0x3f));
        out.push('=');
    }
    assert(out@ =~= base64(bytes@));
    string_from_chars(out.as_slice())
}

} // verus!
