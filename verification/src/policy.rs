//! The access-control policy document: the typed representation of the
//! lists, targets and tuning knobs that drive filter generation and
//! deployment, together with the documented defaults each missing field
//! falls back to.

use vstd::prelude::*;

verus! {

/// Capacity a list's map gets when the policy names none.
pub const DEFAULT_MAX_IPS: u32 = 32;

/// Window length (in the generated filter's time unit) used by the
/// rate-limiting list when the policy names none.
pub const DEFAULT_FREQUENCY: u32 = 1000;

/// Packets-per-window bound used by the rate-limiting list when the policy
/// names none.
pub const DEFAULT_FAST_PACKETS: u32 = 100;

/// The top-level policy document.
#[derive(Debug, Clone)]
pub struct Config {
    pub init: Option<Init>,
    pub data: Option<Data>,
}

/// Program identity, target selection and list configuration.
#[derive(Debug, Clone)]
pub struct Init {
    pub name: Option<String>,
    pub hostname: Option<String>,
    pub port: Option<u16>,
    pub username: Option<String>,
    pub iface: Option<String>,
    pub prog_type: Option<String>,
    pub xdp_action: Option<String>,
    pub whitelist: Option<Whitelist>,
    pub blacklist: Option<Blacklist>,
    pub graylist: Option<Graylist>,
}

/// Per-list preload data: the addresses seeded into each map at load time.
#[derive(Debug, Clone)]
pub struct Data {
    pub whitelist: Option<Vec<String>>,
    pub blacklist: Option<Vec<String>>,
    pub graylist: Option<Vec<String>>,
}

/// The always-pass list.
#[derive(Debug, Clone)]
pub struct Whitelist {
    pub enabled: Option<bool>,
    pub max: Option<u32>,
    pub action: Option<String>,
}

/// The always-deny list.
#[derive(Debug, Clone)]
pub struct Blacklist {
    pub enabled: Option<bool>,
    pub max: Option<u32>,
    pub action: Option<String>,
}

/// The rate-limited list, with the tuning knobs of its state machine.
#[derive(Debug, Clone)]
pub struct Graylist {
    pub enabled: Option<bool>,
    pub max: Option<u32>,
    pub action: Option<String>,
    pub frequency: Option<u32>,
    pub fast_packet_count: Option<u32>,
}

/// Common view of the three lists: resolved capacity and action keyword.
pub trait List {
    spec fn spec_max(&self) -> u32;

    spec fn spec_action(&self) -> Seq<char>;

    fn get_max(&self) -> (r: u32)
        ensures
            r == self.spec_max(),
    ;

    fn get_action(&self) -> (r: &str)
        ensures
            r@ == self.spec_action(),
    ;
}

impl Whitelist {
    /// A list is active only when present and explicitly enabled.
    pub open spec fn spec_enabled(&self) -> bool {
        match self.enabled {
            Some(b) => b,
            None => false,
        }
    }

    /// Whether the list takes part in filtering.
    pub fn is_enabled(&self) -> (r: bool)
        ensures
            r == self.spec_enabled(),
    {
        match &self.enabled {
            Some(b) => *b,
            None => false,
        }
    }
}

impl Blacklist {
    /// A list is active only when present and explicitly enabled.
    pub open spec fn spec_enabled(&self) -> bool {
        match self.enabled {
            Some(b) => b,
            None => false,
        }
    }

    /// Whether the list takes part in filtering.
    pub fn is_enabled(&self) -> (r: bool)
        ensures
            r == self.spec_enabled(),
    {
        match &self.enabled {
            Some(b) => *b,
            None => false,
        }
    }
}

impl Graylist {
    /// A list is active only when present and explicitly enabled.
    pub open spec fn spec_enabled(&self) -> bool {
        match self.enabled {
            Some(b) => b,
            None => false,
        }
    }

    /// Whether the list takes part in filtering.
    pub fn is_enabled(&self) -> (r: bool)
        ensures
            r == self.spec_enabled(),
    {
        match &self.enabled {
            Some(b) => *b,
            None => false,
        }
    }

    /// The window length, falling back to the documented default.
    pub open spec fn spec_frequency(&self) -> u32 {
        match self.frequency {
            Some(f) => f,
            None => DEFAULT_FREQUENCY,
        }
    }

    /// The packets-per-window bound, falling back to the documented default.
    pub open spec fn spec_fast_packets(&self) -> u32 {
        match self.fast_packet_count {
            Some(f) => f,
            None => DEFAULT_FAST_PACKETS,
        }
    }

    /// The window length, falling back to the documented default.
    pub fn frequency_or_default(&self) -> (r: u32)
        ensures
            r == self.spec_frequency(),
    {
        match &self.frequency {
            Some(f) => *f,
            None => DEFAULT_FREQUENCY,
        }
    }

    /// The packets-per-window bound, falling back to the documented default.
    pub fn fast_packets_or_default(&self) -> (r: u32)
        ensures
            r == self.spec_fast_packets(),
    {
        match &self.fast_packet_count {
            Some(f) => *f,
            None => DEFAULT_FAST_PACKETS,
        }
    }
}

impl List for Whitelist {
    open spec fn spec_max(&self) -> u32 {
        match self.max {
            Some(m) => m,
            None => DEFAULT_MAX_IPS,
        }
    }

    open spec fn spec_action(&self) -> Seq<char> {
        match self.action {
            Some(a) => a@,
            None => "allow"@,
        }
    }

    fn get_max(&self) -> (r: u32) {
        match &self.max {
            Some(m) => *m,
            None => DEFAULT_MAX_IPS,
        }
    }

    fn get_action(&self) -> (r: &str) {
        match &self.action {
            Some(a) => a.as_str(),
            None => "allow",
        }
    }
}

impl List for Blacklist {
    open spec fn spec_max(&self) -> u32 {
        match self.max {
            Some(m) => m,
            None => DEFAULT_MAX_IPS,
        }
    }

    open spec fn spec_action(&self) -> Seq<char> {
        match self.action {
            Some(a) => a@,
            None => "deny"@,
        }
    }

    fn get_max(&self) -> (r: u32) {
        match &self.max {
            Some(m) => *m,
            None => DEFAULT_MAX_IPS,
        }
    }

    fn get_action(&self) -> (r: &str) {
        match &self.action {
            Some(a) => a.as_str(),
            None => "deny",
        }
    }
}

impl List for Graylist {
    open spec fn spec_max(&self) -> u32 {
        match self.max {
            Some(m) => m,
            None => DEFAULT_MAX_IPS,
        }
    }

    open spec fn spec_action(&self) -> Seq<char> {
        match self.action {
            Some(a) => a@,
            None => "investigate"@,
        }
    }

    fn get_max(&self) -> (r: u32) {
        match &self.max {
            Some(m) => *m,
            None => DEFAULT_MAX_IPS,
        }
    }

    fn get_action(&self) -> (r: &str) {
        match &self.action {
            Some(a) => a.as_str(),
            None => "investigate",
        }
    }
}

impl Init {
    /// The program name the policy resolves to.
    pub open spec fn spec_name(&self) -> Seq<char> {
        match self.name {
            Some(n) => n@,
            None => "ExampleProgram"@,
        }
    }

    /// The unmatched-traffic action keyword the policy resolves to.
    pub open spec fn spec_xdp_action(&self) -> Seq<char> {
        match self.xdp_action {
            Some(a) => a@,
            None => "PASS"@,
        }
    }
}

impl Default for Whitelist {
    /// A disabled pass list of the default capacity.
    fn default() -> (r: Whitelist)
        ensures
            r.enabled == Some(false),
            r.max == Some(DEFAULT_MAX_IPS),
            r.action is Some && r.action->Some_0@ == "allow"@,
    {
        Whitelist { enabled: Some(false), max: Some(DEFAULT_MAX_IPS), action: Some(
            "allow".to_owned(),
        ) }
    }
}

impl Default for Blacklist {
    /// A disabled deny list of the default capacity.
    fn default() -> (r: Blacklist)
        ensures
            r.enabled == Some(false),
            r.max == Some(DEFAULT_MAX_IPS),
            r.action is Some && r.action->Some_0@ == "deny"@,
    {
        Blacklist { enabled: Some(false), max: Some(DEFAULT_MAX_IPS), action: Some(
            "deny".to_owned(),
        ) }
    }
}

impl Default for Graylist {
    /// An enabled rate-limiting list with the documented tuning defaults.
    fn default() -> (r: Graylist)
        ensures
            r.enabled == Some(true),
            r.max == Some(DEFAULT_MAX_IPS),
            r.action is Some && r.action->Some_0@ == "investigate"@,
            r.frequency == Some(DEFAULT_FREQUENCY),
            r.fast_packet_count == Some(DEFAULT_FAST_PACKETS),
    {
        Graylist {
            enabled: Some(true),
            max: Some(DEFAULT_MAX_IPS),
            action: Some("investigate".to_owned()),
            frequency: Some(DEFAULT_FREQUENCY),
            fast_packet_count: Some(DEFAULT_FAST_PACKETS),
        }
    }
}

impl Default for Init {
    /// The documented baseline: a local target filtering the default
    /// interface, with only the rate-limiting list enabled.
    fn default() -> (r: Init)
        ensures
            r.name is Some && r.name->Some_0@ == "ExampleProgram"@,
            r.hostname is None,
            r.port is None,
            r.username is None,
            r.iface is Some && r.iface->Some_0@ == "eth0"@,
            r.prog_type is Some && r.prog_type->Some_0@ == "ip"@,
            r.xdp_action is Some && r.xdp_action->Some_0@ == "PASS"@,
            r.whitelist is Some && r.whitelist->Some_0.enabled == Some(false),
            r.whitelist->Some_0.max == Some(DEFAULT_MAX_IPS),
            r.whitelist->Some_0.action is Some && r.whitelist->Some_0.action->Some_0@ == "allow"@,
            r.blacklist is Some && r.blacklist->Some_0.enabled == Some(false),
            r.blacklist->Some_0.max == Some(DEFAULT_MAX_IPS),
            r.blacklist->Some_0.action is Some && r.blacklist->Some_0.action->Some_0@ == "deny"@,
            r.graylist is Some && r.graylist->Some_0.enabled == Some(true),
            r.graylist->Some_0.max == Some(DEFAULT_MAX_IPS),
            r.graylist->Some_0.action is Some && r.graylist->Some_0.action->Some_0@
                == "investigate"@,
            r.graylist->Some_0.frequency == Some(DEFAULT_FREQUENCY),
            r.graylist->Some_0.fast_packet_count == Some(DEFAULT_FAST_PACKETS),
    {
        Init {
            name: Some("ExampleProgram".to_owned()),
            hostname: None,
            port: None,
            iface: Some("eth0".to_owned()),
            username: None,
            prog_type: Some("ip".to_owned()),
            xdp_action: Some("PASS".to_owned()),
            whitelist: Some(Whitelist::default()),
            blacklist: Some(Blacklist::default()),
            graylist: Some(Graylist::default()),
        }
    }
}

/// A filled-in example document: a remote target with every list enabled
/// and one preload address on each plain list.
pub fn example_config() -> (r: Config)
    ensures
        r.init is Some,
        ({
            let i = r.init->Some_0;
            i.name is Some && i.name->Some_0@ == "Example"@ && i.hostname is Some
                && i.hostname->Some_0@ == "100.0.0.10"@ && i.port == Some(22u16) && i.username
                is Some && i.username->Some_0@ == "bobthebuilder"@ && i.iface is Some
                && i.iface->Some_0@ == "eth0"@ && i.prog_type is Some && i.prog_type->Some_0@
                == "ip"@ && i.xdp_action is Some && i.xdp_action->Some_0@ == "PASS"@ && i.whitelist
                is Some && i.whitelist->Some_0.enabled == Some(true) && i.whitelist->Some_0.max
                == Some(32u32) && i.whitelist->Some_0.action->Some_0@ == "allow"@ && i.blacklist
                is Some && i.blacklist->Some_0.enabled == Some(true) && i.blacklist->Some_0.max
                == Some(32u32) && i.blacklist->Some_0.action->Some_0@ == "deny"@ && i.graylist
                is Some && i.graylist->Some_0.enabled == Some(true) && i.graylist->Some_0.max
                == Some(32u32) && i.graylist->Some_0.action->Some_0@ == "investigate"@
                && i.graylist->Some_0.frequency == Some(1000u32)
                && i.graylist->Some_0.fast_packet_count == Some(10u32)
        }),
        r.data is Some,
        ({
            let d = r.data->Some_0;
            d.whitelist is Some && d.whitelist->Some_0@.len() == 1
                && d.whitelist->Some_0@[0]@ == "192.168.1.103"@ && d.blacklist is Some
                && d.blacklist->Some_0@.len() == 1 && d.blacklist->Some_0@[0]@ == "192.168.1.203"@
                && d.graylist is Some && d.graylist->Some_0@.len() == 0
        }),
{
    let mut wl_data: Vec<String> = Vec::new();
    wl_data.push("192.168.1.103".to_owned());
    let mut bl_data: Vec<String> = Vec::new();
    bl_data.push("192.168.1.203".to_owned());
    Config {
        init: Some(
            Init {
                name: Some("Example".to_owned()),
                hostname: Some("100.0.0.10".to_owned()),
                port: Some(22),
                username: Some("bobthebuilder".to_owned()),
                iface: Some("eth0".to_owned()),
                prog_type: Some("ip".to_owned()),
                xdp_action: Some("PASS".to_owned()),
                whitelist: Some(
                    Whitelist { enabled: Some(true), max: Some(32), action: Some(
                        "allow".to_owned(),
                    ) },
                ),
                blacklist: Some(
                    Blacklist { enabled: Some(true), max: Some(32), action: Some(
                        "deny".to_owned(),
                    ) },
                ),
                graylist: Some(
                    Graylist {
                        enabled: Some(true),
                        max: Some(32),
                        action: Some("investigate".to_owned()),
                        frequency: Some(1000),
                        fast_packet_count: Some(10),
                    },
                ),
            },
        ),
        data: Some(
            Data { whitelist: Some(wl_data), blacklist: Some(bl_data), graylist: Some(Vec::new()) },
        ),
    }
}

/// A minimal starter document: a local target on the loopback interface
/// with the two plain lists enabled and empty preload data.
pub fn base_config() -> (r: Config)
    ensures
        r.init is Some,
        ({
            let i = r.init->Some_0;
            i.name is Some && i.name->Some_0@ == "MyFirstProgram"@ && i.hostname is None && i.port
                is None && i.username is None && i.iface is Some && i.iface->Some_0@ == "lo"@
                && i.prog_type is Some && i.prog_type->Some_0@ == "ip"@ && i.xdp_action is Some
                && i.xdp_action->Some_0@ == "PASS"@ && i.whitelist is Some
                && i.whitelist->Some_0.enabled == Some(true) && i.whitelist->Some_0.max == Some(
                32u32,
            ) && i.whitelist->Some_0.action->Some_0@ == "allow"@ && i.blacklist is Some
                && i.blacklist->Some_0.enabled == Some(true) && i.blacklist->Some_0.max == Some(
                32u32,
            ) && i.blacklist->Some_0.action->Some_0@ == "deny"@ && i.graylist is None
        }),
        r.data is Some,
        ({
            let d = r.data->Some_0;
            d.whitelist is Some && d.whitelist->Some_0@.len() == 0 && d.blacklist is Some
                && d.blacklist->Some_0@.len() == 0 && d.graylist is None
        }),
{
    Config {
        init: Some(
            Init {
                name: Some("MyFirstProgram".to_owned()),
                hostname: None,
                port: None,
                username: None,
                iface: Some("lo".to_owned()),
                prog_type: Some("ip".to_owned()),
                xdp_action: Some("PASS".to_owned()),
                whitelist: Some(
                    Whitelist { enabled: Some(true), max: Some(32), action: Some(
                        "allow".to_owned(),
                    ) },
                ),
                blacklist: Some(
                    Blacklist { enabled: Some(true), max: Some(32), action: Some(
                        "deny".to_owned(),
                    ) },
                ),
                graylist: None,
            },
        ),
        data: Some(Data { whitelist: Some(Vec::new()), blacklist: Some(Vec::new()), graylist: None }),
    }
}

impl Default for Config {
    /// The default document: the baseline settings and no preload data.
    fn default() -> (r: Config)
        ensures
            r.init is Some,
            r.data is None,
            r.init->Some_0.name is Some && r.init->Some_0.name->Some_0@ == "ExampleProgram"@,
            r.init->Some_0.prog_type is Some && r.init->Some_0.prog_type->Some_0@ == "ip"@,
            r.init->Some_0.hostname is None,
    {
        Config { init: Some(Init::default()), data: None }
    }
}

} // verus!
