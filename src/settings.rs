use vstd::prelude::*;

verus! {

/// The coordinator's address where nothing else names one.
pub const DEFAULT_REDIS_URL: &'static str = "redis://127.0.0.1/";

/// Where the coordinator is and which procedure it runs.
#[derive(Clone, Debug)]
pub struct RedisConfig {
    pub server_url: String,
    pub script: String,
}

/// The settings of one process: a debug flag and the coordinator's config.
/// They are resolved once and then only read.
#[derive(Clone, Debug)]
pub struct Settings {
    debug: bool,
    redis: RedisConfig,
}

/// The first value present, by precedence: an explicit one, then one from
/// the environment, then the fallback.
pub open spec fn spec_pick(
    explicit: Option<Seq<char>>,
    from_env: Option<Seq<char>>,
    fallback: Seq<char>,
) -> Seq<char> {
    match explicit {
        Some(v) => v,
        None => match from_env {
            Some(v) => v,
            None => fallback,
        },
    }
}

/// The view of an optional string.
pub open spec fn opt_view(s: Option<String>) -> Option<Seq<char>> {
    match s {
        Some(v) => Some(v@),
        None => None,
    }
}

/// Picks a value by precedence: `explicit`, else `from_env`, else `fallback`.
pub fn pick(explicit: Option<String>, from_env: Option<String>, fallback: String) -> (r: String)
    ensures
        r@ == spec_pick(opt_view(explicit), opt_view(from_env), fallback@),
{
    match explicit {
        Some(v) => v,
        None => match from_env {
            Some(v) => v,
            None => fallback,
        },
    }
}

impl Settings {
    pub closed spec fn spec_debug(self) -> bool {
        self.debug
    }

    pub closed spec fn spec_url(self) -> Seq<char> {
        self.redis.server_url@
    }

    pub closed spec fn spec_script(self) -> Seq<char> {
        self.redis.script@
    }

    /// Settings made of given values.
    pub fn from_parts(debug: bool, server_url: String, script: String) -> (r: Settings)
        ensures
            r.spec_debug() == debug,
            r.spec_url() == server_url@,
            r.spec_script() == script@,
    {
        Settings { debug, redis: RedisConfig { server_url, script } }
    }

    /// Resolves the settings. The address is the explicit one, else the one
    /// from the environment, else the default address; the procedure source
    /// is the explicit one, else the one from the environment, else the
    /// built-in one.
    pub fn resolve(
        debug: bool,
        url: Option<String>,
        env_url: Option<String>,
        script: Option<String>,
        env_script: Option<String>,
        builtin_script: String,
    ) -> (r: Settings)
        ensures
            r.spec_debug() == debug,
            r.spec_url() == spec_pick(opt_view(url), opt_view(env_url), DEFAULT_REDIS_URL@),
            r.spec_script() == spec_pick(opt_view(script), opt_view(env_script), builtin_script@),
    {
        let server_url = pick(url, env_url, DEFAULT_REDIS_URL.to_owned());
        let script = pick(script, env_script, builtin_script);
        Settings::from_parts(debug, server_url, script)
    }

    /// Whether debugging is on.
    pub fn debug(&self) -> (r: bool)
        ensures
            r == self.spec_debug(),
    {
        self.debug
    }

    /// The procedure source.
    pub fn redis_script(&self) -> (r: String)
        ensures
            r@ == self.spec_script(),
    {
        self.redis.script.clone()
    }

    /// The coordinator's address.
    pub fn redis_url(&self) -> (r: String)
        ensures
            r@ == self.spec_url(),
    {
        self.redis.server_url.clone()
    }
}

} // verus!
