use vstd::prelude::*;

verus! {

/// Where the configuration lives when no path is given.
pub const DEFAULT_CONFIG_PATH: &'static str = "~/.config/rusty-panel.yaml";

/// The configuration file's record: the command to poll, how long to wait
/// before hiding, and the polling period in seconds.
#[derive(Debug, Clone)]
pub struct Config {
    pub cmd: String,
    pub hide_delay_ms: u64,
    pub timeout_s: u32,
}

impl PartialEq for Config {
    fn eq(&self, o: &Config) -> (r: bool)
        ensures
            r == (self.cmd@ == o.cmd@ && self.hide_delay_ms == o.hide_delay_ms && self.timeout_s
                == o.timeout_s),
    {
        self.cmd == o.cmd && self.hide_delay_ms == o.hide_delay_ms && self.timeout_s == o.timeout_s
    }
}

impl vstd::std_specs::cmp::PartialEqSpecImpl for Config {
    open spec fn obeys_eq_spec() -> bool {
        true
    }

    open spec fn eq_spec(&self, o: &Config) -> bool {
        self.cmd@ == o.cmd@ && self.hide_delay_ms == o.hide_delay_ms && self.timeout_s
            == o.timeout_s
    }
}

/// The values written to a fresh configuration file.
pub open spec fn is_default_config(c: Config) -> bool {
    &&& c.cmd@ == "date"@
    &&& c.hide_delay_ms == 500
    &&& c.timeout_s == 1
}

impl Default for Config {
    fn default() -> (r: Config)
        ensures
            is_default_config(r),
    {
        let cmd = String::from_str("date");
        proof {
            reveal_strlit("date");
        }
        Config { cmd, hide_delay_ms: 500, timeout_s: 1 }
    }
}

/// Why a configuration was refused.
#[derive(Debug, Clone, Copy, PartialEq, Eq, Structural)]
pub enum ConfigError {
    /// A polling period of zero seconds.
    ZeroPollInterval,
}

/// The configuration the panel runs with: the command after home expansion,
/// the hide delay, and a polling period of at least one second.
#[derive(Debug, Clone)]
pub struct PanelConfig {
    pub command: String,
    pub hide_delay_ms: u64,
    pub poll_interval_s: u32,
}

impl PanelConfig {
    pub open spec fn wf(self) -> bool {
        self.poll_interval_s >= 1
    }

    /// A panel configuration from its parts; a zero polling period is refused.
    pub fn new(command: String, hide_delay_ms: u64, poll_interval_s: u32) -> (r: Result<
        PanelConfig,
        ConfigError,
    >)
        ensures
            r.is_err() <==> poll_interval_s == 0,
            r.is_err() ==> r == Err::<PanelConfig, ConfigError>(ConfigError::ZeroPollInterval),
            r.is_ok() ==> ({
                let p = r.unwrap();
                &&& p.wf()
                &&& p.command@ == command@
                &&& p.hide_delay_ms == hide_delay_ms
                &&& p.poll_interval_s == poll_interval_s
            }),
    {
        if poll_interval_s == 0 {
            Err(ConfigError::ZeroPollInterval)
        } else {
            Ok(PanelConfig { command, hide_delay_ms, poll_interval_s })
        }
    }
}

/// `s` begins with a `~` that home expansion replaces: alone, or before a
/// path separator.
pub open spec fn has_home_prefix(s: Seq<char>) -> bool {
    &&& s.len() >= 1
    &&& s[0] == '~'
    &&& (s.len() == 1 || s[1] == '/')
}

/// The text of an optional string.
pub open spec fn opt_view(o: Option<String>) -> Option<Seq<char>> {
    match o {
        Some(s) => Some(s@),
        None => None,
    }
}

/// Home expansion of `s` with the home directory `home`: a leading `~`, alone
/// or before `/`, becomes the home directory where one is known; any other
/// text, and any text where no home directory is known, stays as it is.
pub open spec fn tilde_spec(s: Seq<char>, home: Option<Seq<char>>) -> Seq<char> {
    match home {
        Some(h) => if has_home_prefix(s) {
            h + s.subrange(1, s.len() as int)
        } else {
            s
        },
        None => s,
    }
}

/// Relies on `shellexpand::tilde_with_context` (on Unix): with `home` as the
/// home directory, a leading `~` alone or before `/` is replaced by it, and
/// everything else is returned unchanged.
#[verifier::external_body]
fn expand_home(s: &str, home: Option<String>) -> (r: String)
    ensures
        r@ == tilde_spec(s@, opt_view(home)),
{
    shellexpand::tilde_with_context(s, || home).into_owned()
}

impl Config {
    /// The panel configuration this record describes, with the command's home
    /// prefix expanded against `home`. A zero polling period is refused.
    pub fn validate(&self, home: Option<String>) -> (r: Result<PanelConfig, ConfigError>)
        ensures
            r.is_err() <==> self.timeout_s == 0,
            r.is_err() ==> r == Err::<PanelConfig, ConfigError>(ConfigError::ZeroPollInterval),
            r.is_ok() ==> ({
                let p = r.unwrap();
                &&& p.wf()
                &&& p.command@ == tilde_spec(self.cmd@, opt_view(home))
                &&& p.hide_delay_ms == self.hide_delay_ms
                &&& p.poll_interval_s == self.timeout_s
            }),
    {
        let command = expand_home(self.cmd.as_str(), home);
        PanelConfig::new(command, self.hide_delay_ms, self.timeout_s)
    }
}

/// The configuration file to use: `explicit` where given, else the default
/// path, with its home prefix expanded against `home`.
pub fn config_path(explicit: Option<String>, home: Option<String>) -> (r: String)
    ensures
        explicit.is_some() ==> r@ == tilde_spec(explicit.unwrap()@, opt_view(home)),
        explicit.is_none() ==> r@ == tilde_spec(DEFAULT_CONFIG_PATH@, opt_view(home)),
{
    match explicit {
        Some(p) => expand_home(p.as_str(), home),
        None => expand_home(DEFAULT_CONFIG_PATH, home),
    }
}

/// What to do with the configuration file at startup.
#[derive(Debug, Clone, Copy, PartialEq, Eq, Structural)]
pub enum ConfigStep {
    /// Read and parse the file; a missing or malformed file is an error.
    Read,
    /// Write the default configuration to the file and use it.
    CreateDefault,
}

/// An explicitly given file is always read; the default file is read where it
/// exists and created with the defaults where it does not.
pub open spec fn config_step_spec(explicit: bool, exists: bool) -> ConfigStep {
    if !explicit && !exists {
        ConfigStep::CreateDefault
    } else {
        ConfigStep::Read
    }
}

/// What to do with the configuration file, given whether a path was given
/// explicitly and whether the file exists.
pub fn plan_config_load(explicit: bool, exists: bool) -> (r: ConfigStep)
    ensures
        r == config_step_spec(explicit, exists),
{
    if !explicit && !exists {
        ConfigStep::CreateDefault
    } else {
        ConfigStep::Read
    }
}

/// Without an explicit path, the first run (no file yet) creates the default
/// file, and the second run (the file now exists) reads it rather than writing
/// it again; the defaults written pass validation unchanged.
pub proof fn lemma_first_run_creates_then_reads(c: Config)
    requires
        is_default_config(c),
    ensures
        config_step_spec(false, false) == ConfigStep::CreateDefault,
        config_step_spec(false, true) == ConfigStep::Read,
        c.timeout_s >= 1,
        c.hide_delay_ms == 500,
{
}

} // verus!
