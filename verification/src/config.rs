//! Settings of the daemon, read from the environment when it starts.

use vstd::prelude::*;

use crate::protocol::paths;
use crate::text;

verus! {

/// The address the daemon listens on unless told otherwise.
pub const DEFAULT_BIND: &'static str = "127.0.0.1:7431";

/// Iterations of the agent loop unless told otherwise.
pub const DEFAULT_MAX_ITERATIONS: u32 = 20;

/// Who may call.
#[derive(Debug, Clone, Copy, PartialEq, Eq, Structural)]
pub enum AuthMode {
    /// Holders of the local token.
    Local,
    /// The proxy of a deployment, and nobody else.
    Remote,
}

/// An address of a machine.
#[derive(Debug, Clone, Copy, PartialEq, Eq)]
pub enum Ip {
    V4([u8; 4]),
    V6([u16; 8]),
}

/// An address to listen on.
#[derive(Debug, Clone, Copy, PartialEq, Eq)]
pub struct Bind {
    pub ip: Ip,
    pub port: u16,
}

/// An address that was read from a text, and how it is shown.
#[derive(Debug, PartialEq)]
pub struct ParsedBind {
    pub bind: Bind,
    pub shown: String,
}

/// Whether an address is that of the machine itself: `127.0.0.0/8` or `::1`.
pub open spec fn loopback(ip: Ip) -> bool {
    match ip {
        Ip::V4(a) => a@[0] == 127,
        Ip::V6(a) => a@ == seq![0u16, 0, 0, 0, 0, 0, 0, 1],
    }
}

/// Whether an address is that of the machine itself.
pub fn is_loopback(ip: Ip) -> (r: bool)
    ensures
        r == loopback(ip),
{
    match ip {
        Ip::V4(a) => a[0] == 127,
        Ip::V6(a) => {
            let r = a[0] == 0 && a[1] == 0 && a[2] == 0 && a[3] == 0 && a[4] == 0 && a[5] == 0
                && a[6] == 0 && a[7] == 1;
            assert(r ==> a@ =~= seq![0u16, 0, 0, 0, 0, 0, 0, 1]);
            r
        },
    }
}

/// The variables that the daemon reads, each as it is set.
#[derive(Debug, PartialEq)]
pub struct EnvVars {
    pub bind: Option<String>,
    pub port: Option<String>,
    pub data_dir: Option<String>,
    pub max_iterations: Option<String>,
    pub spa_origin: Option<String>,
    pub groq_api_key: Option<String>,
    pub auth_mode: Option<String>,
    pub proxy_secret: Option<String>,
    pub database_url: Option<String>,
    pub relay_url: Option<String>,
    pub allowed_emails: Option<String>,
}

/// The settings.
#[derive(Debug, PartialEq)]
pub struct DaemonConfig {
    /// Where the token and the database live.
    pub data_dir: String,
    /// Always of the machine itself: the daemon opens no port to a network.
    pub bind: Bind,
    /// Limit of the agent loop.
    pub max_iterations: u32,
    /// One more origin that may call from a browser.
    pub spa_origin: Option<String>,
    pub groq_api_key: Option<String>,
    pub auth_mode: AuthMode,
    /// Shared with the proxy of a deployment.
    pub proxy_secret: Option<String>,
    pub allowed_emails: Vec<String>,
    pub database_url: Option<String>,
    /// Address of the relay, without slashes at its end.
    pub relay_url: Option<String>,
}

/// Why the daemon refuses to start.
#[derive(Debug, PartialEq)]
pub enum ConfigError {
    /// The address is not of the machine itself; with its text.
    NonLoopbackBind(String),
    /// The text is no address.
    InvalidBind(String),
    NoDataDir,
    MissingProxySecret,
    MissingDatabaseUrl,
}

impl ConfigError {
    /// The message shown to the user.
    pub open spec fn message(self) -> Seq<char> {
        match self {
            ConfigError::NonLoopbackBind(addr) =>
                "RNF-04: el daemon solo puede escuchar en loopback; se pidió "@ + addr@,
            ConfigError::InvalidBind(raw) => "dirección de escucha inválida: "@ + raw@,
            ConfigError::NoDataDir => "no se pudo determinar el directorio de datos"@,
            ConfigError::MissingProxySecret =>
                "RUTSUBO_PROXY_SECRET es obligatorio en modo remote"@,
            ConfigError::MissingDatabaseUrl => "DATABASE_URL es obligatorio en modo remote"@,
        }
    }

    /// The message shown to the user.
    pub fn text(&self) -> (r: String)
        ensures
            r@ == self.message(),
    {
        match self {
            ConfigError::NonLoopbackBind(addr) => text::join2(
                "RNF-04: el daemon solo puede escuchar en loopback; se pidió ",
                addr.as_str(),
            ),
            ConfigError::InvalidBind(raw) => {
                text::join2("dirección de escucha inválida: ", raw.as_str())
            },
            ConfigError::NoDataDir => "no se pudo determinar el directorio de datos".to_owned(),
            ConfigError::MissingProxySecret => {
                "RUTSUBO_PROXY_SECRET es obligatorio en modo remote".to_owned()
            },
            ConfigError::MissingDatabaseUrl => {
                "DATABASE_URL es obligatorio en modo remote".to_owned()
            },
        }
    }
}

/// The address to listen on, as text: the one asked for, else any address at
/// the port asked for, else the default.
pub open spec fn bind_text(vars: EnvVars) -> Seq<char> {
    match vars.bind {
        Some(b) => b@,
        None => match vars.port {
            Some(p) => "0.0.0.0:"@ + p@,
            None => "127.0.0.1:7431"@,
        },
    }
}

/// The address to listen on, as text.
pub fn bind_raw(vars: &EnvVars) -> (r: String)
    ensures
        r@ == bind_text(*vars),
{
    match &vars.bind {
        Some(b) => b.clone(),
        None => match &vars.port {
            Some(p) => text::join2("0.0.0.0:", p.as_str()),
            None => DEFAULT_BIND.to_owned(),
        },
    }
}

/// A variable that counts only when it is not empty.
pub open spec fn non_empty(var: Option<String>) -> Option<String> {
    match var {
        Some(v) => if v@.len() > 0 {
            Some(v)
        } else {
            None
        },
        None => None,
    }
}

fn take_non_empty(var: &Option<String>) -> (r: Option<String>)
    ensures
        r == non_empty(*var),
{
    match var {
        Some(v) => if v.as_str().is_empty() {
            None
        } else {
            Some(v.clone())
        },
        None => None,
    }
}

/// The test for non-empty texts.
pub open spec fn is_text() -> spec_fn(Seq<char>) -> bool {
    |s: Seq<char>| s.len() > 0
}

/// The addresses of a list between commas: trimmed, in lower case, and not
/// empty.
pub open spec fn emails_of(list: Seq<char>) -> Seq<Seq<char>> {
    text::split(list, ',').map_values(
        |e: Seq<char>| text::ascii_lower(text::trim(e)),
    ).filter(is_text())
}

fn parse_emails(list: &str) -> (r: Vec<String>)
    ensures
        text::views(r@) == emails_of(list@),
{
    let pieces = text::split_on(list, ',');
    let ghost all = text::split(list@, ',').map_values(
        |e: Seq<char>| text::ascii_lower(text::trim(e)),
    );
    let ghost keep = is_text();
    let mut out: Vec<String> = Vec::new();
    let mut i: usize = 0;
    proof {
        reveal(Seq::filter);
        assert(all.take(0).filter(keep) == Seq::<Seq<char>>::empty());
        assert(text::views(out@) == Seq::<Seq<char>>::empty());
    }
    while i < pieces.len()
        invariant
            i <= pieces.len(),
            all == text::views(pieces@).map_values(
                |e: Seq<char>| text::ascii_lower(text::trim(e)),
            ),
            keep == is_text(),
            text::views(out@) == all.take(i as int).filter(keep),
        decreases pieces.len() - i,
    {
        let email = text::lowercase_ascii(text::trimmed(pieces[i].as_str()).as_str());
        proof {
            reveal(Seq::filter);
            assert(all.take(i + 1).drop_last() == all.take(i as int));
            assert(text::views(pieces@)[i as int] == pieces@[i as int]@);
            assert(all.take(i + 1).last() == email@);
            assert(text::views(out@.push(email)) == text::views(out@).push(email@));
        }
        if !email.as_str().is_empty() {
            out.push(email);
        }
        i += 1;
    }
    assert(all.take(i as int) == all);
    out
}

/// Whether the deployment is behind a proxy.
pub open spec fn is_remote(vars: EnvVars) -> bool {
    vars.auth_mode matches Some(m) && m@ == "remote"@
}

/// The error that the settings earn, in the order in which they are read.
pub open spec fn refuses(
    vars: EnvVars,
    parsed: Option<ParsedBind>,
    default_dir: Option<String>,
    err: ConfigError,
) -> bool {
    match parsed {
        None => err matches ConfigError::InvalidBind(raw) && raw@ == bind_text(vars),
        Some(p) => if !loopback(p.bind.ip) {
            err == ConfigError::NonLoopbackBind(p.shown)
        } else if non_empty(vars.data_dir) is None && default_dir is None {
            err == ConfigError::NoDataDir
        } else if is_remote(vars) && non_empty(vars.proxy_secret) is None {
            err == ConfigError::MissingProxySecret
        } else {
            &&& is_remote(vars)
            &&& non_empty(vars.database_url) is None
            &&& err == ConfigError::MissingDatabaseUrl
        },
    }
}

impl DaemonConfig {
    /// Whether these are the settings that the variables ask for.
    pub open spec fn is_from(self, vars: EnvVars, bind: Bind, default_dir: Option<String>) -> bool {
        &&& self.bind == bind
        &&& Some(self.data_dir) == (match non_empty(vars.data_dir) {
            Some(dir) => Some(dir),
            None => default_dir,
        })
        &&& self.max_iterations == (match vars.max_iterations {
            Some(v) => match text::u32_value(v@) {
                Some(n) => n,
                None => DEFAULT_MAX_ITERATIONS,
            },
            None => DEFAULT_MAX_ITERATIONS,
        })
        &&& self.spa_origin == non_empty(vars.spa_origin)
        &&& self.groq_api_key == non_empty(vars.groq_api_key)
        &&& self.auth_mode == (if is_remote(vars) {
            AuthMode::Remote
        } else {
            AuthMode::Local
        })
        &&& self.proxy_secret == non_empty(vars.proxy_secret)
        &&& self.database_url == non_empty(vars.database_url)
        &&& self.relay_url is Some <==> non_empty(vars.relay_url) is Some
        &&& self.relay_url matches Some(url) ==> url@ == text::without_end(
            vars.relay_url->0@,
            '/',
        )
        &&& text::views(self.allowed_emails@) == (match vars.allowed_emails {
            Some(list) => emails_of(list@),
            None => Seq::<Seq<char>>::empty(),
        })
    }

    /// What the variables come to: the settings, or why the daemon refuses to
    /// start.
    pub open spec fn settles(
        vars: EnvVars,
        parsed: Option<ParsedBind>,
        default_dir: Option<String>,
        r: Result<Self, ConfigError>,
    ) -> bool {
        match r {
            Ok(cfg) => {
                &&& parsed matches Some(p)
                &&& loopback(p.bind.ip)
                &&& cfg.is_from(vars, p.bind, default_dir)
                &&& cfg.auth_mode is Remote ==> cfg.proxy_secret is Some
                    && cfg.database_url is Some
            },
            Err(e) => refuses(vars, parsed, default_dir, e),
        }
    }

    /// The settings that the variables ask for, or why the daemon refuses to
    /// start: an address that is not of the machine itself is refused, whatever
    /// the other variables say. `parsed` is the address that [`bind_raw`] spells, if it spells
    /// one; `default_dir` is the data directory of the platform.
    pub fn from_env(
        vars: &EnvVars,
        parsed: Option<ParsedBind>,
        default_dir: Option<String>,
    ) -> (r: Result<Self, ConfigError>)
        ensures
            Self::settles(*vars, parsed, default_dir, r),
    {
        let (bind, shown) = match parsed {
            Some(p) => (p.bind, p.shown),
            None => return Err(ConfigError::InvalidBind(bind_raw(vars))),
        };
        if !is_loopback(bind.ip) {
            return Err(ConfigError::NonLoopbackBind(shown));
        }
        let data_dir = match take_non_empty(&vars.data_dir) {
            Some(dir) => dir,
            None => match default_dir {
                Some(dir) => dir,
                None => return Err(ConfigError::NoDataDir),
            },
        };
        let max_iterations: u32 = match &vars.max_iterations {
            Some(v) => match text::parse_u32(v.as_str()) {
                Some(n) => n,
                None => DEFAULT_MAX_ITERATIONS,
            },
            None => DEFAULT_MAX_ITERATIONS,
        };
        let spa_origin = take_non_empty(&vars.spa_origin);
        let groq_api_key = take_non_empty(&vars.groq_api_key);
        let remote = match &vars.auth_mode {
            Some(m) => text::same(m.as_str(), "remote"),
            None => false,
        };
        let auth_mode = if remote {
            AuthMode::Remote
        } else {
            AuthMode::Local
        };
        let proxy_secret = take_non_empty(&vars.proxy_secret);
        if remote && proxy_secret.is_none() {
            return Err(ConfigError::MissingProxySecret);
        }
        let database_url = take_non_empty(&vars.database_url);
        if remote && database_url.is_none() {
            return Err(ConfigError::MissingDatabaseUrl);
        }
        let relay_url = match take_non_empty(&vars.relay_url) {
            Some(url) => Some(text::trim_end_char(url.as_str(), '/')),
            None => None,
        };
        let allowed_emails = match &vars.allowed_emails {
            Some(list) => parse_emails(list.as_str()),
            None => {
                let none: Vec<String> = Vec::new();
                assert(text::views(none@) =~= Seq::<Seq<char>>::empty());
                none
            },
        };
        Ok(
            DaemonConfig {
                data_dir,
                bind,
                max_iterations,
                spa_origin,
                groq_api_key,
                auth_mode,
                proxy_secret,
                allowed_emails,
                database_url,
                relay_url,
            },
        )
    }

    /// The workspace of a session on a server.
    pub fn remote_workspace(&self, session_id: &str) -> (r: String)
        ensures
            r@ == paths::joined(paths::joined(self.data_dir@, "remote-ws"@), session_id@),
    {
        paths::join(paths::join(self.data_dir.as_str(), "remote-ws").as_str(), session_id)
    }
}

/// Whether a variable is set to something.
pub open spec fn is_set(var: Option<String>) -> bool {
    var is Some && var->0@.len() > 0
}

/// Law: the daemon starts exactly when its address can be read and is of the
/// machine itself, it has a data directory and, behind a proxy, a secret and a
/// database; whatever else is set, it listens to no network.
pub proof fn law_daemon_starts_iff(
    vars: EnvVars,
    parsed: Option<ParsedBind>,
    default_dir: Option<String>,
    r: Result<DaemonConfig, ConfigError>,
)
    requires
        DaemonConfig::settles(vars, parsed, default_dir, r),
    ensures
        ({
            let remote = vars.auth_mode is Some && vars.auth_mode->0@ == "remote"@;
            let at_home = parsed is Some && match (parsed->0).bind.ip {
                Ip::V4(a) => a@[0] == 127,
                Ip::V6(a) => a@ == seq![0u16, 0, 0, 0, 0, 0, 0, 1],
            };
            let placed = is_set(vars.data_dir) || default_dir is Some;
            &&& r is Ok <==> at_home && placed && (remote ==> is_set(vars.proxy_secret) && is_set(
                vars.database_url,
            ))
            &&& r matches Ok(cfg) ==> cfg.bind == (parsed->0).bind && (cfg.auth_mode is Remote
                <==> remote)
            &&& r matches Err(e) ==> {
                &&& e is InvalidBind <==> parsed is None
                &&& e is NonLoopbackBind <==> parsed is Some && !at_home
                &&& e is NoDataDir <==> at_home && !placed
                &&& e is MissingProxySecret <==> at_home && placed && !is_set(vars.proxy_secret)
                &&& e is MissingDatabaseUrl <==> at_home && placed && is_set(vars.proxy_secret)
            }
        }),
{
}

/// Law: each setting is that of its own variable, where that is set; an unset
/// or empty one leaves it out. The data directory falls back to the platform's,
/// the limit of the loop to twenty where the variable is no number; the relay's
/// address loses the slashes at its end and nothing else.
pub proof fn law_settings_follow_the_variables(
    cfg: DaemonConfig,
    vars: EnvVars,
    bind: Bind,
    default_dir: Option<String>,
)
    requires
        cfg.is_from(vars, bind, default_dir),
    ensures
        is_set(vars.data_dir) ==> cfg.data_dir@ == vars.data_dir->0@,
        !is_set(vars.data_dir) ==> default_dir == Some(cfg.data_dir),
        cfg.spa_origin == (if is_set(vars.spa_origin) {
            vars.spa_origin
        } else {
            None
        }),
        cfg.groq_api_key == (if is_set(vars.groq_api_key) {
            vars.groq_api_key
        } else {
            None
        }),
        cfg.proxy_secret == (if is_set(vars.proxy_secret) {
            vars.proxy_secret
        } else {
            None
        }),
        cfg.database_url == (if is_set(vars.database_url) {
            vars.database_url
        } else {
            None
        }),
        vars.max_iterations is None ==> cfg.max_iterations == 20,
        vars.max_iterations matches Some(v) ==> (text::u32_value(v@) is None ==> cfg.max_iterations
            == 20) && (text::u32_value(v@) matches Some(n) ==> cfg.max_iterations == n),
        cfg.relay_url is Some <==> is_set(vars.relay_url),
        cfg.relay_url matches Some(url) ==> url@.is_prefix_of(vars.relay_url->0@) && (url@.len() > 0
            ==> url@.last() != '/') && forall|i: int|
            url@.len() <= i < vars.relay_url->0@.len() ==> #[trigger] vars.relay_url->0@[i] == '/',
        vars.allowed_emails is None ==> cfg.allowed_emails@.len() == 0,
{
    match vars.relay_url {
        Some(url) => text::law_without_end(url@, '/'),
        None => {},
    }
    if vars.allowed_emails is None {
        assert(text::views(cfg.allowed_emails@).len() == cfg.allowed_emails@.len());
    }
}

/// Law: the address asked for is taken as it is; without one, any address at
/// the port asked for; without either, port 7431 of the machine itself.
pub proof fn law_bind_text(vars: EnvVars)
    ensures
        vars.bind matches Some(b) ==> bind_text(vars) == b@,
        vars.bind is None && vars.port is Some ==> "0.0.0.0:"@.is_prefix_of(bind_text(vars))
            && bind_text(vars).skip(8) == vars.port->0@,
        vars.bind is None && vars.port is None ==> bind_text(vars) == "127.0.0.1:7431"@,
{
    reveal_strlit("0.0.0.0:");
    if vars.bind is None && vars.port is Some {
        assert("0.0.0.0:"@.is_prefix_of(bind_text(vars)));
        assert(bind_text(vars).skip(8) == vars.port->0@);
    }
}

/// Law: the addresses allowed are those between the commas of the list that are
/// not blank, each without the white space around it and in lower case.
pub proof fn law_allowed_emails(list: Seq<char>, email: Seq<char>)
    ensures
        emails_of(list).contains(email) <==> email.len() > 0 && exists|k: int|
            0 <= k < text::split(list, ',').len() && email == text::ascii_lower(
                text::trim(#[trigger] text::split(list, ',')[k]),
            ),
{
    let pieces = text::split(list, ',');
    let all = pieces.map_values(|e: Seq<char>| text::ascii_lower(text::trim(e)));
    let keep = is_text();
    if emails_of(list).contains(email) {
        let j = choose|j: int| 0 <= j < emails_of(list).len() && emails_of(list)[j] == email;
        all.lemma_filter_pred(keep, j);
        all.lemma_filter_contains_rev(keep, email);
        let k = choose|k: int| 0 <= k < all.len() && all[k] == email;
        assert(all[k] == text::ascii_lower(text::trim(pieces[k])));
    }
    if email.len() > 0 && exists|k: int|
        0 <= k < pieces.len() && email == text::ascii_lower(text::trim(#[trigger] pieces[k])) {
        let k = choose|k: int|
            0 <= k < pieces.len() && email == text::ascii_lower(text::trim(#[trigger] pieces[k]));
        assert(all[k] == email);
        assert(keep(all[k]));
        all.lemma_filter_contains(keep, k);
    }
}

/// Law: the message of a refusal to start says what was asked for, where that is
/// at fault, and which variable is missing, where one is.
pub proof fn law_refusal_says_why(err: ConfigError)
    ensures
        err matches ConfigError::NonLoopbackBind(addr) ==> addr@.is_suffix_of(err.message()),
        err matches ConfigError::InvalidBind(raw) ==> raw@.is_suffix_of(err.message()),
        err is MissingProxySecret ==> "RUTSUBO_PROXY_SECRET"@.is_prefix_of(err.message()),
        err is MissingDatabaseUrl ==> "DATABASE_URL"@.is_prefix_of(err.message()),
{
    match err {
        ConfigError::NonLoopbackBind(addr) => {
            assert(addr@.is_suffix_of(err.message()));
        },
        ConfigError::InvalidBind(raw) => {
            assert(raw@.is_suffix_of(err.message()));
        },
        ConfigError::MissingProxySecret => {
            reveal_strlit("RUTSUBO_PROXY_SECRET");
            reveal_strlit("RUTSUBO_PROXY_SECRET es obligatorio en modo remote");
            assert("RUTSUBO_PROXY_SECRET"@.is_prefix_of(err.message()));
        },
        ConfigError::MissingDatabaseUrl => {
            reveal_strlit("DATABASE_URL");
            reveal_strlit("DATABASE_URL es obligatorio en modo remote");
            assert("DATABASE_URL"@.is_prefix_of(err.message()));
        },
        ConfigError::NoDataDir => {},
    }
}

} // verus!
