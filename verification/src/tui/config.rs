//! The client's saved endpoint choice, and which server and token it uses.

use vstd::prelude::*;
use crate::text::str_eq;

verus! {

/// Which server the client talks to.
#[derive(Debug, Clone, Copy, PartialEq, Eq, Structural)]
pub enum Mode {
    /// Only ever the local server.
    Local,
    /// Only ever the account's public URL.
    Remote,
    /// The local server when it answers, else the public URL.
    Auto,
}

/// The client's saved configuration.
#[derive(Debug, Clone)]
pub struct TuiConfig {
    pub mode: Mode,
    pub local_url: String,
    pub remote_url: Option<String>,
    /// A token the user gave explicitly; otherwise the stored one is used.
    pub explicit_token: Option<String>,
}

/// The view of a [`TuiConfig`].
pub struct TuiConfigV {
    pub mode: Mode,
    pub local_url: Seq<char>,
    pub remote_url: Option<Seq<char>>,
    pub explicit_token: Option<Seq<char>>,
}

impl View for TuiConfig {
    type V = TuiConfigV;

    open spec fn view(&self) -> TuiConfigV {
        TuiConfigV {
            mode: self.mode,
            local_url: self.local_url@,
            remote_url: self.remote_url.deep_view(),
            explicit_token: self.explicit_token.deep_view(),
        }
    }
}

/// The address of the local server.
pub open spec fn default_local_url() -> Seq<char> {
    "http://127.0.0.1:3333"@
}

impl TuiConfig {
    /// Automatic mode against the local server, no remote URL, no token.
    pub fn default_config() -> (c: TuiConfig)
        ensures
            c.mode == Mode::Auto,
            c.local_url@ == default_local_url(),
            c.remote_url.is_none(),
            c.explicit_token.is_none(),
    {
        TuiConfig {
            mode: Mode::Auto,
            local_url: String::from_str("http://127.0.0.1:3333"),
            remote_url: None,
            explicit_token: None,
        }
    }
}

impl Default for TuiConfig {
    fn default() -> (c: TuiConfig)
        ensures
            c.mode == Mode::Auto,
            c.local_url@ == default_local_url(),
            c.remote_url.is_none(),
            c.explicit_token.is_none(),
    {
        TuiConfig::default_config()
    }
}

/// What was found out about both endpoints at start-up.
#[derive(Debug, Clone)]
pub struct Probe {
    pub local_reachable: bool,
    pub remote_url: Option<String>,
    pub remote_reachable: bool,
}

/// The view of a [`Probe`].
pub struct ProbeV {
    pub local_reachable: bool,
    pub remote_url: Option<Seq<char>>,
    pub remote_reachable: bool,
}

impl View for Probe {
    type V = ProbeV;

    open spec fn view(&self) -> ProbeV {
        ProbeV {
            local_reachable: self.local_reachable,
            remote_url: self.remote_url.deep_view(),
            remote_reachable: self.remote_reachable,
        }
    }
}

/// The URL the client connects to, for a configuration and what the probe found.
pub open spec fn resolved_url_spec(mode: Mode, local: Seq<char>, probe_remote: Option<Seq<char>>, local_ok: bool, remote_ok: bool) -> Option<Seq<char>> {
    match mode {
        Mode::Local => Some(local),
        Mode::Remote => probe_remote,
        Mode::Auto => {
            if local_ok {
                Some(local)
            } else if remote_ok {
                probe_remote
            } else {
                Some(local)
            }
        },
    }
}

fn clone_opt(o: &Option<String>) -> (r: Option<String>)
    ensures
        r.deep_view() == o.deep_view(),
{
    match o {
        Some(s) => Some(s.clone()),
        None => None,
    }
}

/// Picks the URL to connect to: in automatic mode the local server when it
/// answered, else the remote one when it answered, else still the local one.
pub fn resolved_url(cfg: &TuiConfig, probe: &Probe) -> (r: Option<String>)
    ensures
        r.deep_view() == resolved_url_spec(
            cfg.mode,
            cfg.local_url@,
            probe.remote_url.deep_view(),
            probe.local_reachable,
            probe.remote_reachable,
        ),
{
    match cfg.mode {
        Mode::Local => Some(cfg.local_url.clone()),
        Mode::Remote => clone_opt(&probe.remote_url),
        Mode::Auto => {
            if probe.local_reachable {
                Some(cfg.local_url.clone())
            } else if probe.remote_reachable {
                clone_opt(&probe.remote_url)
            } else {
                Some(cfg.local_url.clone())
            }
        },
    }
}

/// The bearer token: the explicit one when set, else the one stored on disk
/// (`stored`, as read from the token file).
pub fn resolved_token(cfg: &TuiConfig, stored: Option<String>) -> (r: Option<String>)
    ensures
        r.deep_view() == (match cfg.explicit_token {
            Some(t) => Some(t@),
            None => stored.deep_view(),
        }),
{
    match &cfg.explicit_token {
        Some(t) => Some(t.clone()),
        None => stored,
    }
}

/// The text of a token file: its content trimmed, `None` when that is empty.
pub open spec fn token_from_file(content: Seq<char>) -> Option<Seq<char>> {
    if crate::text::trim(content).len() == 0 {
        None
    } else {
        Some(crate::text::trim(content))
    }
}

/// Reads a token file's content: trimmed, and `None` when nothing is left.
pub fn read_token_text(content: &str) -> (r: Option<String>)
    ensures
        r.deep_view() == token_from_file(content@),
{
    proof {
        reveal_strlit("");
    }
    let t = crate::text::trimmed(content);
    if str_eq(t.as_str(), "") {
        None
    } else {
        assert(t@.len() != 0) by {
            if t@.len() == 0 {
                assert(t@ =~= ""@);
            }
        }
        Some(t)
    }
}

/// Whether setup still has to ask for the remote URL: remote mode is picked
/// and no remote URL is known.
pub fn needs_remote_url(cfg: &TuiConfig) -> (b: bool)
    ensures
        b == (cfg.mode == Mode::Remote && cfg.remote_url.is_none()),
{
    cfg.mode == Mode::Remote && cfg.remote_url.is_none()
}

/// The answer to "Paste the remote URL": the trimmed line, refused when empty.
pub open spec fn remote_url_from(answer: Seq<char>) -> Result<Seq<char>, Seq<char>> {
    if crate::text::trim(answer).len() == 0 {
        Err("remote mode requires a URL"@)
    } else {
        Ok(crate::text::trim(answer))
    }
}

/// Reads the pasted remote URL (see [`remote_url_from`]).
pub fn remote_url_answer(answer: &str) -> (r: Result<String, String>)
    ensures
        match r {
            Ok(u) => remote_url_from(answer@) == Ok::<Seq<char>, Seq<char>>(u@),
            Err(e) => remote_url_from(answer@) == Err::<Seq<char>, Seq<char>>(e@),
        },
{
    proof {
        reveal_strlit("");
    }
    let t = crate::text::trimmed(answer);
    if str_eq(t.as_str(), "") {
        Err(String::from_str("remote mode requires a URL"))
    } else {
        assert(t@.len() != 0) by {
            if t@.len() == 0 {
                assert(t@ =~= ""@);
            }
        }
        Ok(t)
    }
}

/// Reads a pasted bearer token: the trimmed line, `None` when empty (the
/// token is then taken from the environment at run time).
pub fn token_answer(answer: &str) -> (r: Option<String>)
    ensures
        r.deep_view() == token_from_file(answer@),
{
    read_token_text(answer)
}

/// The mode a setup answer picks: "1" local, "2" remote, anything else
/// (the default) automatic; the answer is trimmed first.
pub open spec fn mode_for(answer: Seq<char>) -> Mode {
    if crate::text::trim(answer) == "1"@ {
        Mode::Local
    } else if crate::text::trim(answer) == "2"@ {
        Mode::Remote
    } else {
        Mode::Auto
    }
}

/// The mode picked by a setup answer (see [`mode_for`]).
pub fn mode_for_choice(answer: &str) -> (m: Mode)
    ensures
        m == mode_for(answer@),
{
    let t = crate::text::trimmed(answer);
    if str_eq(t.as_str(), "1") {
        Mode::Local
    } else if str_eq(t.as_str(), "2") {
        Mode::Remote
    } else {
        Mode::Auto
    }
}

/// The URL the client talks to: the URL given on the command line; else the
/// endpoint asked for ("local", or "remote" when a remote URL is known; any
/// other name is refused); else the one [`resolved_url_spec`] picks.
pub open spec fn endpoint_spec(
    url: Option<Seq<char>>,
    endpoint: Option<Seq<char>>,
    local: Seq<char>,
    mode: Mode,
    probe_remote: Option<Seq<char>>,
    local_ok: bool,
    remote_ok: bool,
) -> Result<Seq<char>, Seq<char>> {
    match url {
        Some(u) => Ok(u),
        None => match endpoint {
            Some(e) => if e == "local"@ {
                Ok(local)
            } else if e == "remote"@ {
                match probe_remote {
                    Some(r) => Ok(r),
                    None => Err("--endpoint remote requested but no remote URL configured"@),
                }
            } else {
                Err("--endpoint must be 'local' or 'remote', got '"@ + e + "'"@)
            },
            None => match resolved_url_spec(mode, local, probe_remote, local_ok, remote_ok) {
                Some(u) => Ok(u),
                None => Err("no endpoint to talk to"@),
            },
        },
    }
}

/// Chooses the URL to talk to (see [`endpoint_spec`]); the error is the
/// message the client stops with.
pub fn choose_endpoint(url: Option<String>, endpoint: Option<&str>, cfg: &TuiConfig, probe: &Probe) -> (r: Result<String, String>)
    ensures
        match (r, endpoint_spec(
            url.deep_view(),
            match endpoint {
                Some(e) => Some(e@),
                None => None,
            },
            cfg.local_url@,
            cfg.mode,
            probe.remote_url.deep_view(),
            probe.local_reachable,
            probe.remote_reachable,
        )) {
            (Ok(a), Ok(b)) => a@ == b,
            (Err(a), Err(b)) => a@ == b,
            _ => false,
        },
{
    match url {
        Some(u) => Ok(u),
        None => match endpoint {
            Some(e) => {
                if str_eq(e, "local") {
                    Ok(cfg.local_url.clone())
                } else if str_eq(e, "remote") {
                    match &probe.remote_url {
                        Some(r) => Ok(r.clone()),
                        None => Err(String::from_str("--endpoint remote requested but no remote URL configured")),
                    }
                } else {
                    let mut out: Vec<char> = Vec::new();
                    crate::text::push_str(&mut out, "--endpoint must be 'local' or 'remote', got '");
                    crate::text::push_str(&mut out, e);
                    crate::text::push_str(&mut out, "'");
                    Err(crate::text::string_from_chars(out.as_slice()))
                }
            },
            None => match resolved_url(cfg, probe) {
                Some(u) => Ok(u),
                None => Err(String::from_str("no endpoint to talk to")),
            },
        },
    }
}

} // verus!
