//! Signup: the username rules, and the steps that provision a user's tunnel,
//! its ingress, its DNS name and the account row, undoing what was created
//! when a later step fails.

use vstd::prelude::*;
use crate::control::cloudflare::{CfError, CfErrorV, DnsRecord, TunnelCreated, cf_error_text};
use crate::text::{lower, lowercase, push_str, string_from_chars, trim, trimmed};
use vstd::utf8::encode_utf8;

verus! {

/// The body of a signup request.
#[derive(Debug, Clone)]
pub struct SignupRequest {
    pub username: String,
    pub email: Option<String>,
}

/// The body of a successful signup.
#[derive(Debug, Clone)]
pub struct SignupResponse {
    pub username: String,
    pub url: String,
    pub tunnel_token: String,
}

/// The body of a refused or failed signup.
#[derive(Debug, Clone)]
pub struct ErrorResponse {
    pub error: String,
}

/// A signed-up account as the database stores it.
#[derive(Debug, Clone)]
pub struct Account {
    pub username: String,
    pub email: Option<String>,
    pub cf_tunnel_id: String,
    pub cf_tunnel_token: String,
    pub cf_dns_record_id: String,
    pub created_at: String,
}

/// Names no one can sign up with.
pub open spec fn reserved_names() -> Seq<Seq<char>> {
    seq![
        "admin"@, "api"@, "app"@, "auth"@, "billing"@, "blog"@, "cdn"@, "dashboard"@,
        "docs"@, "help"@, "info"@, "login"@, "logout"@, "mail"@, "ns"@, "ns1"@, "ns2"@,
        "root"@, "signup"@, "static"@, "status"@, "support"@, "test"@, "www"@,
    ]
}

/// A byte a username may hold: `a`-`z`, `0`-`9` or `-`.
pub open spec fn name_byte(b: u8) -> bool {
    (97 <= b <= 122) || (48 <= b <= 57) || b == 45
}

/// The characters of ASCII bytes.
pub open spec fn ascii_text(b: Seq<u8>) -> Seq<char> {
    b.map_values(|x: u8| x as char)
}

/// Why a username is refused, in the order the rules are checked, over its
/// UTF-8 bytes: fewer than 3, more than 32, a byte other than `a-z 0-9 -`,
/// a hyphen first or last, a reserved name.
pub open spec fn username_problem(b: Seq<u8>) -> Option<Seq<char>> {
    if b.len() < 3 {
        Some("username must be at least 3 characters"@)
    } else if b.len() > 32 {
        Some("username must be at most 32 characters"@)
    } else if exists|i: int| 0 <= i < b.len() && !name_byte(#[trigger] b[i]) {
        Some("username may only contain a-z, 0-9, hyphen"@)
    } else if b[0] == 45 || b.last() == 45 {
        Some("username may not begin or end with a hyphen"@)
    } else if reserved_names().contains(ascii_text(b)) {
        Some("username is reserved"@)
    } else {
        None
    }
}

/// A username byte that the rules allow, by its character: a small letter,
/// a digit or a hyphen.
pub open spec fn allowed_char(c: char) -> bool {
    ('a' <= c && c <= 'z') || ('0' <= c && c <= '9') || c == '-'
}

/// A username is accepted exactly when it has 3 to 32 bytes, each a small
/// ASCII letter, a digit or a hyphen, does not begin or end with a hyphen,
/// and is not a reserved name.
pub proof fn law_username_accepted(b: Seq<u8>)
    ensures
        username_problem(b) is None <==> {
            &&& 3 <= b.len() <= 32
            &&& forall|i: int| 0 <= i < b.len() ==> allowed_char(#[trigger] b[i] as char)
            &&& (b[0] as char) != '-'
            &&& (b.last() as char) != '-'
            &&& !reserved_names().contains(ascii_text(b))
        },
{
    assert forall|x: u8| #[trigger] name_byte(x) <==> allowed_char(x as char) by {
        assert(('a' as u8) == 97u8 && ('z' as u8) == 122u8 && ('0' as u8) == 48u8 && ('9' as u8) == 57u8
            && ('-' as u8) == 45u8);
    }
    if 3 <= b.len() <= 32 {
        assert((b[0] as char) != '-' <==> b[0] != 45);
        assert((b.last() as char) != '-' <==> b.last() != 45);
        if forall|i: int| 0 <= i < b.len() ==> allowed_char(#[trigger] b[i] as char) {
            assert(forall|i: int| 0 <= i < b.len() ==> name_byte(#[trigger] b[i]));
        } else {
            let i = choose|i: int| 0 <= i < b.len() && !allowed_char(#[trigger] b[i] as char);
            assert(!name_byte(b[i]));
        }
    }
}

/// Whether the bytes `b` spell the ASCII word `w`.
fn spells(b: &[u8], w: &str) -> (r: bool)
    ensures
        r == (ascii_text(b@) == w@),
{
    let wv = crate::text::chars_of(w);
    if wv.len() != b.len() {
        assert(ascii_text(b@).len() != w@.len());
        return false;
    }
    let mut i: usize = 0;
    while i < b.len()
        invariant
            i <= b.len(),
            wv@ == w@,
            wv.len() == b.len(),
            forall|j: int| 0 <= j < i ==> (b@[j] as char) == wv@[j],
        decreases b.len() - i,
    {
        if (b[i] as char) != wv[i] {
            assert(ascii_text(b@)[i as int] != w@[i as int]);
            return false;
        }
        i += 1;
    }
    assert(ascii_text(b@) =~= w@);
    true
}

/// Checks a username against the rules (see [`username_problem`]).
pub fn validate_username(u: &str) -> (r: Result<(), String>)
    ensures
        match r {
            Ok(_) => username_problem(encode_utf8(u@)) is None,
            Err(m) => username_problem(encode_utf8(u@)) == Some(m@),
        },
{
    let b = u.as_bytes();
    assert(b@ == encode_utf8(u@));
    if b.len() < 3 {
        return Err(String::from_str("username must be at least 3 characters"));
    }
    if b.len() > 32 {
        return Err(String::from_str("username must be at most 32 characters"));
    }
    let mut i: usize = 0;
    while i < b.len()
        invariant
            i <= b.len(),
            3 <= b.len() <= 32,
            b@ == encode_utf8(u@),
            forall|j: int| 0 <= j < i ==> name_byte(#[trigger] b@[j]),
        decreases b.len() - i,
    {
        let x = b[i];
        if !((97 <= x && x <= 122) || (48 <= x && x <= 57) || x == 45) {
            assert(!name_byte(b@[i as int]));
            return Err(String::from_str("username may only contain a-z, 0-9, hyphen"));
        }
        i += 1;
    }
    if b[0] == 45 || b[b.len() - 1] == 45 {
        return Err(String::from_str("username may not begin or end with a hyphen"));
    }
    let words: [&str; 24] = [
        "admin", "api", "app", "auth", "billing", "blog", "cdn", "dashboard",
        "docs", "help", "info", "login", "logout", "mail", "ns", "ns1", "ns2",
        "root", "signup", "static", "status", "support", "test", "www",
    ];
    let ghost names = words@.map_values(|w: &str| w@);
    assert(names =~= reserved_names());
    let mut k: usize = 0;
    while k < 24
        invariant
            k <= 24,
            names == words@.map_values(|w: &str| w@),
            names == reserved_names(),
            b@ == encode_utf8(u@),
            3 <= b.len() <= 32,
            forall|j: int| 0 <= j < b.len() ==> name_byte(#[trigger] b@[j]),
            !(b@[0] == 45 || b@.last() == 45),
            forall|j: int| 0 <= j < k ==> names[j] != ascii_text(b@),
        decreases 24 - k,
    {
        if spells(b, words[k]) {
            assert(names[k as int] == ascii_text(b@));
            assert(reserved_names()[k as int] == ascii_text(b@));
            assert(reserved_names().contains(ascii_text(b@)));
            return Err(String::from_str("username is reserved"));
        }
        k += 1;
    }
    assert(!reserved_names().contains(ascii_text(b@)));
    Ok(())
}

/// A signup's answer: 201 with the account, or 400, 409 or 500 with the reason.
#[derive(Debug, Clone)]
pub enum Reply {
    Created(SignupResponse),
    BadRequest(String),
    Conflict(String),
    ServerError(String),
}

/// The view of a [`Reply`]: the response's username, URL and token, or the reason.
pub enum ReplyV {
    Created(Seq<char>, Seq<char>, Seq<char>),
    BadRequest(Seq<char>),
    Conflict(Seq<char>),
    ServerError(Seq<char>),
}

impl View for Reply {
    type V = ReplyV;

    open spec fn view(&self) -> ReplyV {
        match self {
            Reply::Created(r) => ReplyV::Created(r.username@, r.url@, r.tunnel_token@),
            Reply::BadRequest(m) => ReplyV::BadRequest(m@),
            Reply::Conflict(m) => ReplyV::Conflict(m@),
            Reply::ServerError(m) => ReplyV::ServerError(m@),
        }
    }
}

impl Reply {
    /// The HTTP status of the answer.
    pub fn status(&self) -> (s: u16)
        ensures
            s == (match self@ {
                ReplyV::Created(..) => 201u16,
                ReplyV::BadRequest(_) => 400u16,
                ReplyV::Conflict(_) => 409u16,
                ReplyV::ServerError(_) => 500u16,
            }),
    {
        match self {
            Reply::Created(_) => 201,
            Reply::BadRequest(_) => 400,
            Reply::Conflict(_) => 409,
            Reply::ServerError(_) => 500,
        }
    }
}

/// Something created in Cloudflare that a failed signup deletes again.
#[derive(Debug, Clone)]
pub enum Cleanup {
    /// A DNS record, by id.
    DeleteDns(String),
    /// A tunnel, by id.
    DeleteTunnel(String),
}

/// The view of a [`Cleanup`].
pub enum CleanupV {
    DeleteDns(Seq<char>),
    DeleteTunnel(Seq<char>),
}

impl View for Cleanup {
    type V = CleanupV;

    open spec fn view(&self) -> CleanupV {
        match self {
            Cleanup::DeleteDns(i) => CleanupV::DeleteDns(i@),
            Cleanup::DeleteTunnel(i) => CleanupV::DeleteTunnel(i@),
        }
    }
}

/// A call the runtime makes for the signup.
#[derive(Debug, Clone)]
pub enum SignupCall {
    /// Whether the database has the username.
    CheckTaken(String),
    /// Create a tunnel of this name.
    CreateTunnel(String),
    /// Route `hostname` through the tunnel to `service`.
    ConfigureTunnel { tunnel_id: String, hostname: String, service: String },
    /// Point the DNS name at the tunnel.
    CreateDns { name: String, tunnel_id: String },
    /// Store the account.
    Insert { username: String, email: Option<String>, tunnel_id: String, token: String, dns_id: String },
}

/// The view of a [`SignupCall`].
pub enum SignupCallV {
    CheckTaken(Seq<char>),
    CreateTunnel(Seq<char>),
    ConfigureTunnel(Seq<char>, Seq<char>, Seq<char>),
    CreateDns(Seq<char>, Seq<char>),
    Insert(Seq<char>, Option<Seq<char>>, Seq<char>, Seq<char>, Seq<char>),
}

impl View for SignupCall {
    type V = SignupCallV;

    open spec fn view(&self) -> SignupCallV {
        match self {
            SignupCall::CheckTaken(u) => SignupCallV::CheckTaken(u@),
            SignupCall::CreateTunnel(n) => SignupCallV::CreateTunnel(n@),
            SignupCall::ConfigureTunnel { tunnel_id, hostname, service } => SignupCallV::ConfigureTunnel(
                tunnel_id@,
                hostname@,
                service@,
            ),
            SignupCall::CreateDns { name, tunnel_id } => SignupCallV::CreateDns(name@, tunnel_id@),
            SignupCall::Insert { username, email, tunnel_id, token, dns_id } => SignupCallV::Insert(
                username@,
                email.deep_view(),
                tunnel_id@,
                token@,
                dns_id@,
            ),
        }
    }
}

/// What comes after a signup step: a call, or the answer.
#[derive(Debug, Clone)]
pub enum Next {
    Call(SignupCall),
    Reply(Reply),
}

/// The view of a [`Next`].
pub enum NextV {
    Call(SignupCallV),
    Reply(ReplyV),
}

impl View for Next {
    type V = NextV;

    open spec fn view(&self) -> NextV {
        match self {
            Next::Call(c) => NextV::Call(c@),
            Next::Reply(r) => NextV::Reply(r@),
        }
    }
}

/// One step of a signup: what to delete first (in order), then what comes next.
#[derive(Debug, Clone)]
pub struct SignupStep {
    pub cleanup: Vec<Cleanup>,
    pub next: Next,
}

/// The view of a [`SignupStep`].
pub struct SignupStepV {
    pub cleanup: Seq<CleanupV>,
    pub next: NextV,
}

impl View for SignupStep {
    type V = SignupStepV;

    open spec fn view(&self) -> SignupStepV {
        SignupStepV { cleanup: self.cleanup@.map_values(|c: Cleanup| c@), next: self.next@ }
    }
}

/// The outcome of the call a signup waits for.
#[derive(Debug)]
pub enum SignupEvent {
    /// Whether the username is taken, or the database error.
    Taken(Result<bool, String>),
    Tunnel(Result<TunnelCreated, CfError>),
    Configured(Result<(), CfError>),
    Dns(Result<DnsRecord, CfError>),
    /// The account row was stored, or the database error.
    Inserted(Result<(), String>),
}

/// The view of a [`SignupEvent`].
pub enum SignupEventV {
    Taken(Result<bool, Seq<char>>),
    Tunnel(Result<(Seq<char>, Seq<char>), CfErrorV>),
    Configured(Result<(), CfErrorV>),
    Dns(Result<Seq<char>, CfErrorV>),
    Inserted(Result<(), Seq<char>>),
}

impl View for SignupEvent {
    type V = SignupEventV;

    open spec fn view(&self) -> SignupEventV {
        match self {
            SignupEvent::Taken(r) => SignupEventV::Taken(
                match r {
                    Ok(b) => Ok(*b),
                    Err(e) => Err(e@),
                },
            ),
            SignupEvent::Tunnel(r) => SignupEventV::Tunnel(
                match r {
                    Ok(t) => Ok((t.id@, t.token@)),
                    Err(e) => Err(e@),
                },
            ),
            SignupEvent::Configured(r) => SignupEventV::Configured(
                match r {
                    Ok(_) => Ok(()),
                    Err(e) => Err(e@),
                },
            ),
            SignupEvent::Dns(r) => SignupEventV::Dns(
                match r {
                    Ok(d) => Ok(d.id@),
                    Err(e) => Err(e@),
                },
            ),
            SignupEvent::Inserted(r) => SignupEventV::Inserted(
                match r {
                    Ok(_) => Ok(()),
                    Err(e) => Err(e@),
                },
            ),
        }
    }
}

/// Where a signup stands: which call it waits for, or that it is over.
#[derive(Debug, Clone, Copy, PartialEq, Eq, Structural)]
pub enum Stage {
    CheckingName,
    CreatingTunnel,
    Configuring,
    CreatingDns,
    Inserting,
    Done,
}

/// A signup under way.
#[derive(Debug)]
pub struct Signup {
    pub username: String,
    pub email: Option<String>,
    pub hostname: String,
    pub tunnel: Option<TunnelCreated>,
    pub dns: Option<DnsRecord>,
    pub stage: Stage,
}

/// The view of a [`Signup`].
pub struct SignupV {
    pub username: Seq<char>,
    pub email: Option<Seq<char>>,
    pub hostname: Seq<char>,
    pub tunnel: Option<(Seq<char>, Seq<char>)>,
    pub dns: Option<Seq<char>>,
    pub stage: Stage,
}

impl View for Signup {
    type V = SignupV;

    open spec fn view(&self) -> SignupV {
        SignupV {
            username: self.username@,
            email: self.email.deep_view(),
            hostname: self.hostname@,
            tunnel: match self.tunnel {
                Some(t) => Some((t.id@, t.token@)),
                None => None,
            },
            dns: match self.dns {
                Some(d) => Some(d.id@),
                None => None,
            },
            stage: self.stage,
        }
    }
}

/// The event a signup at a stage waits for.
pub open spec fn expects(stage: Stage, e: SignupEventV) -> bool {
    match stage {
        Stage::CheckingName => e is Taken,
        Stage::CreatingTunnel => e is Tunnel,
        Stage::Configuring => e is Configured,
        Stage::CreatingDns => e is Dns,
        Stage::Inserting => e is Inserted,
        Stage::Done => false,
    }
}

/// The deletions that undo what a signup created: the DNS record first,
/// then the tunnel.
pub open spec fn rollback(tunnel: Option<(Seq<char>, Seq<char>)>, dns: Option<Seq<char>>) -> Seq<CleanupV> {
    (match dns {
        Some(d) => seq![CleanupV::DeleteDns(d)],
        None => Seq::empty(),
    }) + (match tunnel {
        Some(t) => seq![CleanupV::DeleteTunnel(t.0)],
        None => Seq::empty(),
    })
}

/// The local address the tunnel forwards to.
pub open spec fn local_service() -> Seq<char> {
    "http://localhost:3333"@
}

/// A failed step: undo what was created and answer 500 with `msg`.
pub open spec fn failed(s: SignupV, msg: Seq<char>) -> (SignupV, SignupStepV) {
    (
        SignupV { stage: Stage::Done, ..s },
        SignupStepV { cleanup: rollback(s.tunnel, s.dns), next: NextV::Reply(ReplyV::ServerError(msg)) },
    )
}

/// A step that goes on with `call` at `stage`.
pub open spec fn go_on(s: SignupV, stage: Stage, call: SignupCallV) -> (SignupV, SignupStepV) {
    (SignupV { stage, ..s }, SignupStepV { cleanup: Seq::empty(), next: NextV::Call(call) })
}

/// What the outcome of the awaited call does to a signup.
pub open spec fn signup_step(s: SignupV, e: SignupEventV) -> (SignupV, SignupStepV) {
    match e {
        SignupEventV::Taken(r) => match r {
            Ok(true) => (
                SignupV { stage: Stage::Done, ..s },
                SignupStepV { cleanup: Seq::empty(), next: NextV::Reply(ReplyV::Conflict("username already taken"@)) },
            ),
            Ok(false) => go_on(s, Stage::CreatingTunnel, SignupCallV::CreateTunnel("things-api-"@ + s.username)),
            Err(m) => failed(s, "db: "@ + m),
        },
        SignupEventV::Tunnel(r) => match r {
            Ok(t) => go_on(
                SignupV { tunnel: Some(t), ..s },
                Stage::Configuring,
                SignupCallV::ConfigureTunnel(t.0, s.hostname, local_service()),
            ),
            Err(CfErrorV::Api(m)) => failed(s, "cloudflare: "@ + m),
            Err(err) => failed(s, "cloudflare: "@ + cf_error_text(err)),
        },
        SignupEventV::Configured(r) => match r {
            Ok(_) => match s.tunnel {
                Some(t) => go_on(s, Stage::CreatingDns, SignupCallV::CreateDns(s.hostname, t.0)),
                None => failed(s, Seq::empty()),
            },
            Err(err) => failed(s, "cloudflare configure: "@ + cf_error_text(err)),
        },
        SignupEventV::Dns(r) => match r {
            Ok(d) => match s.tunnel {
                Some(t) => go_on(
                    SignupV { dns: Some(d), ..s },
                    Stage::Inserting,
                    SignupCallV::Insert(s.username, s.email, t.0, t.1, d),
                ),
                None => failed(s, Seq::empty()),
            },
            Err(err) => failed(s, "cloudflare dns: "@ + cf_error_text(err)),
        },
        SignupEventV::Inserted(r) => match r {
            Ok(_) => match s.tunnel {
                Some(t) => (
                    SignupV { stage: Stage::Done, ..s },
                    SignupStepV {
                        cleanup: Seq::empty(),
                        next: NextV::Reply(ReplyV::Created(s.username, "https://"@ + s.hostname, t.1)),
                    },
                ),
                None => failed(s, Seq::empty()),
            },
            Err(m) => failed(s, "db insert: "@ + m),
        },
    }
}

/// A signup's invariant: what was created matches how far it got.
pub open spec fn signup_ok(s: SignupV) -> bool {
    match s.stage {
        Stage::CheckingName | Stage::CreatingTunnel => s.tunnel is None && s.dns is None,
        Stage::Configuring | Stage::CreatingDns => s.tunnel is Some && s.dns is None,
        Stage::Inserting => s.tunnel is Some && s.dns is Some,
        Stage::Done => true,
    }
}

/// The username a request asks for: trimmed and in lower case.
pub open spec fn requested_name(u: Seq<char>) -> Seq<char> {
    lower(trim(u))
}

fn concat2(a: &str, b: &str) -> (r: String)
    ensures
        r@ == a@ + b@,
{
    let mut out: Vec<char> = Vec::new();
    push_str(&mut out, a);
    push_str(&mut out, b);
    string_from_chars(out.as_slice())
}

fn clone_opt(o: &Option<String>) -> (r: Option<String>)
    ensures
        r.deep_view() == o.deep_view(),
{
    match o {
        Some(s) => Some(s.clone()),
        None => None,
    }
}

impl Signup {
    /// Starts a signup under `root_domain`: a username the rules refuse is
    /// answered 400 with the reason; else the database is asked whether it is
    /// taken.
    pub fn start(req: &SignupRequest, root_domain: &str) -> (r: (Signup, SignupStep))
        ensures
            r.0@.username == requested_name(req.username@),
            r.0@.email == req.email.deep_view(),
            r.0@.hostname == requested_name(req.username@) + "."@ + root_domain@,
            r.0@.tunnel is None,
            r.0@.dns is None,
            signup_ok(r.0@),
            r.1@.cleanup.len() == 0,
            match username_problem(encode_utf8(requested_name(req.username@))) {
                Some(m) => r.0@.stage == Stage::Done && r.1@.next == NextV::Reply(ReplyV::BadRequest(m)),
                None => r.0@.stage == Stage::CheckingName && r.1@.next == NextV::Call(
                    SignupCallV::CheckTaken(requested_name(req.username@)),
                ),
            },
    {
        let t = trimmed(req.username.as_str());
        let username = lowercase(t.as_str());
        let mut host: Vec<char> = Vec::new();
        push_str(&mut host, username.as_str());
        push_str(&mut host, ".");
        push_str(&mut host, root_domain);
        let hostname = string_from_chars(host.as_slice());
        let checked = validate_username(username.as_str());
        let mut signup = Signup {
            username,
            email: clone_opt(&req.email),
            hostname,
            tunnel: None,
            dns: None,
            stage: Stage::CheckingName,
        };
        let step = match checked {
            Err(m) => {
                signup.stage = Stage::Done;
                SignupStep { cleanup: Vec::new(), next: Next::Reply(Reply::BadRequest(m)) }
            },
            Ok(()) => SignupStep { cleanup: Vec::new(), next: Next::Call(SignupCall::CheckTaken(signup.username.clone())) },
        };
        assert(step@.cleanup =~= Seq::<CleanupV>::empty());
        (signup, step)
    }

    /// Whether the signup waits for this outcome and is in a consistent state.
    pub fn waits_for(&self, ev: &SignupEvent) -> (b: bool)
        ensures
            b == (expects(self@.stage, ev@) && signup_ok(self@)),
    {
        let expected = match (self.stage, ev) {
            (Stage::CheckingName, SignupEvent::Taken(_)) => true,
            (Stage::CreatingTunnel, SignupEvent::Tunnel(_)) => true,
            (Stage::Configuring, SignupEvent::Configured(_)) => true,
            (Stage::CreatingDns, SignupEvent::Dns(_)) => true,
            (Stage::Inserting, SignupEvent::Inserted(_)) => true,
            _ => false,
        };
        let consistent = match self.stage {
            Stage::CheckingName | Stage::CreatingTunnel => self.tunnel.is_none() && self.dns.is_none(),
            Stage::Configuring | Stage::CreatingDns => self.tunnel.is_some() && self.dns.is_none(),
            Stage::Inserting => self.tunnel.is_some() && self.dns.is_some(),
            Stage::Done => true,
        };
        expected && consistent
    }

    fn rollback_now(&self) -> (c: Vec<Cleanup>)
        ensures
            c@.map_values(|x: Cleanup| x@) == rollback(self@.tunnel, self@.dns),
    {
        let mut c: Vec<Cleanup> = Vec::new();
        match &self.dns {
            Some(d) => c.push(Cleanup::DeleteDns(d.id.clone())),
            None => {},
        }
        match &self.tunnel {
            Some(t) => c.push(Cleanup::DeleteTunnel(t.id.clone())),
            None => {},
        }
        assert(c@.map_values(|x: Cleanup| x@) =~= rollback(self@.tunnel, self@.dns));
        c
    }

    fn fail(&mut self, msg: String) -> (step: SignupStep)
        ensures
            (final(self)@, step@) == failed(old(self)@, msg@),
    {
        let cleanup = self.rollback_now();
        self.stage = Stage::Done;
        SignupStep { cleanup, next: Next::Reply(Reply::ServerError(msg)) }
    }

    /// Takes the outcome of the awaited call (see [`signup_step`]).
    pub fn advance(&mut self, ev: SignupEvent) -> (step: SignupStep)
        requires
            expects(old(self)@.stage, ev@),
            signup_ok(old(self)@),
        ensures
            (final(self)@, step@) == signup_step(old(self)@, ev@),
            signup_ok(final(self)@),
    {
        match ev {
            SignupEvent::Taken(r) => match r {
                Ok(true) => {
                    self.stage = Stage::Done;
                    let step = SignupStep {
                        cleanup: Vec::new(),
                        next: Next::Reply(Reply::Conflict(String::from_str("username already taken"))),
                    };
                    assert(step@.cleanup =~= Seq::<CleanupV>::empty());
                    step
                },
                Ok(false) => {
                    self.stage = Stage::CreatingTunnel;
                    let step = SignupStep {
                        cleanup: Vec::new(),
                        next: Next::Call(SignupCall::CreateTunnel(concat2("things-api-", self.username.as_str()))),
                    };
                    assert(step@.cleanup =~= Seq::<CleanupV>::empty());
                    step
                },
                Err(m) => self.fail(concat2("db: ", m.as_str())),
            },
            SignupEvent::Tunnel(r) => match r {
                Ok(t) => {
                    let call = SignupCall::ConfigureTunnel {
                        tunnel_id: t.id.clone(),
                        hostname: self.hostname.clone(),
                        service: String::from_str("http://localhost:3333"),
                    };
                    self.tunnel = Some(t);
                    self.stage = Stage::Configuring;
                    let step = SignupStep { cleanup: Vec::new(), next: Next::Call(call) };
                    assert(step@.cleanup =~= Seq::<CleanupV>::empty());
                    step
                },
                Err(CfError::Api(m)) => self.fail(concat2("cloudflare: ", m.as_str())),
                Err(e) => {
                    let text = e.message();
                    self.fail(concat2("cloudflare: ", text.as_str()))
                },
            },
            SignupEvent::Configured(r) => match r {
                Ok(_) => {
                    let call = match &self.tunnel {
                        Some(t) => SignupCall::CreateDns { name: self.hostname.clone(), tunnel_id: t.id.clone() },
                        None => {
                            return self.fail(String::new());
                        },
                    };
                    self.stage = Stage::CreatingDns;
                    let step = SignupStep { cleanup: Vec::new(), next: Next::Call(call) };
                    assert(step@.cleanup =~= Seq::<CleanupV>::empty());
                    step
                },
                Err(e) => {
                    let text = e.message();
                    self.fail(concat2("cloudflare configure: ", text.as_str()))
                },
            },
            SignupEvent::Dns(r) => match r {
                Ok(d) => {
                    let call = match &self.tunnel {
                        Some(t) => SignupCall::Insert {
                            username: self.username.clone(),
                            email: clone_opt(&self.email),
                            tunnel_id: t.id.clone(),
                            token: t.token.clone(),
                            dns_id: d.id.clone(),
                        },
                        None => {
                            return self.fail(String::new());
                        },
                    };
                    self.dns = Some(d);
                    self.stage = Stage::Inserting;
                    let step = SignupStep { cleanup: Vec::new(), next: Next::Call(call) };
                    assert(step@.cleanup =~= Seq::<CleanupV>::empty());
                    step
                },
                Err(e) => {
                    let text = e.message();
                    self.fail(concat2("cloudflare dns: ", text.as_str()))
                },
            },
            SignupEvent::Inserted(r) => match r {
                Ok(_) => {
                    let reply = match &self.tunnel {
                        Some(t) => Reply::Created(
                            SignupResponse {
                                username: self.username.clone(),
                                url: concat2("https://", self.hostname.as_str()),
                                tunnel_token: t.token.clone(),
                            },
                        ),
                        None => {
                            return self.fail(String::new());
                        },
                    };
                    self.stage = Stage::Done;
                    let step = SignupStep { cleanup: Vec::new(), next: Next::Reply(reply) };
                    assert(step@.cleanup =~= Seq::<CleanupV>::empty());
                    step
                },
                Err(m) => self.fail(concat2("db insert: ", m.as_str())),
            },
        }
    }
}

/// A signup that fails after creating something in Cloudflare deletes all of
/// it again, the DNS record before the tunnel; a signup that goes on or
/// succeeds deletes nothing.
pub proof fn law_signup_rolls_back(s: SignupV, e: SignupEventV)
    requires
        expects(s.stage, e),
        signup_ok(s),
    ensures
        match signup_step(s, e).1.next {
            NextV::Reply(ReplyV::ServerError(_)) => signup_step(s, e).1.cleanup == rollback(s.tunnel, s.dns),
            _ => signup_step(s, e).1.cleanup.len() == 0,
        },
        signup_ok(signup_step(s, e).0),
{
}

} // verus!
