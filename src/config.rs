use vstd::prelude::*;
use vstd::string::*;

verus! {

/// Everything the agent needs to know at startup.
pub struct AgentConfig {
    /// Suppresses informational console output.
    pub silent: bool,
    pub broker_host: String,
    pub broker_port: u16,
    pub sensor_path: String,
    pub hostname_path: String,
    /// Seconds between two sampling ticks.
    pub sample_period_secs: u64,
    /// Seconds to wait before trying to connect again.
    pub retry_delay_secs: u64,
    /// Connection attempts after which startup gives up; `None` retries forever.
    pub max_connect_attempts: Option<u64>,
    /// Client identity used when the host name cannot be resolved.
    pub fallback_identity: String,
}

/// What opening a broker connection is asked to use.
pub struct ConnectRequest {
    pub client_id: String,
    pub host: String,
    pub port: u16,
}

pub const DEFAULT_BROKER_PORT: u16 = 1883;

pub const DEFAULT_PERIOD_SECS: u64 = 5;

/// The configuration with `silent` as given and every other field at its default.
pub open spec fn is_default_with(c: AgentConfig, silent: bool) -> bool {
    &&& c.silent == silent
    &&& c.broker_host@ == "192.168.1.15"@
    &&& c.broker_port == DEFAULT_BROKER_PORT
    &&& c.sensor_path@ == "/sys/class/thermal/thermal_zone0/temp"@
    &&& c.hostname_path@ == "/etc/hostname"@
    &&& c.sample_period_secs == DEFAULT_PERIOD_SECS
    &&& c.retry_delay_secs == DEFAULT_PERIOD_SECS
    &&& c.max_connect_attempts is None
    &&& c.fallback_identity@ == "computeblade_default"@
}

/// Whether `args` holds the flag that silences informational output.
pub open spec fn has_silent_flag(args: Seq<String>) -> bool {
    exists|i: int| 0 <= i < args.len() && (#[trigger] args[i])@ == "--silent"@
}

impl AgentConfig {
    /// The default configuration, verbose.
    pub fn defaults() -> (r: AgentConfig)
        ensures
            is_default_with(r, false),
    {
        AgentConfig {
            silent: false,
            broker_host: String::from_str("192.168.1.15"),
            broker_port: DEFAULT_BROKER_PORT,
            sensor_path: String::from_str("/sys/class/thermal/thermal_zone0/temp"),
            hostname_path: String::from_str("/etc/hostname"),
            sample_period_secs: DEFAULT_PERIOD_SECS,
            retry_delay_secs: DEFAULT_PERIOD_SECS,
            max_connect_attempts: None,
            fallback_identity: String::from_str("computeblade_default"),
        }
    }

    /// The default configuration, silent exactly when `args` holds `--silent`.
    pub fn from_args(args: &Vec<String>) -> (r: AgentConfig)
        ensures
            is_default_with(r, has_silent_flag(args@)),
    {
        let flag = String::from_str("--silent");
        let mut silent = false;
        let mut i: usize = 0;
        while i < args.len()
            invariant
                i <= args@.len(),
                flag@ == "--silent"@,
                silent <==> exists|j: int| 0 <= j < i && (#[trigger] args@[j])@ == "--silent"@,
            decreases args@.len() - i,
        {
            if args[i] == flag {
                silent = true;
            }
            i = i + 1;
        }
        let mut r = AgentConfig::defaults();
        r.silent = silent;
        r
    }

    /// Whether informational lines are shown.
    pub fn shows_info(&self) -> (r: bool)
        ensures
            r == !self.silent,
    {
        !self.silent
    }

    /// The connection request for a client of the given identity.
    pub fn connect_request(&self, identity: &str) -> (r: ConnectRequest)
        ensures
            r.client_id@ == identity@,
            r.host@ == self.broker_host@,
            r.port == self.broker_port,
    {
        ConnectRequest {
            client_id: String::from_str(identity),
            host: self.broker_host.clone(),
            port: self.broker_port,
        }
    }
}

} // verus!
