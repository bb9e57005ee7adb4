use hpx::policy::{
    base_config, example_config, Blacklist, Config, Graylist, List, Whitelist,
};

#[test]
fn default_config_matches_the_documented_baseline() {
    let config = Config::default();
    assert!(config.data.is_none());
    let init = config.init.unwrap();
    assert_eq!(init.name.as_deref(), Some("ExampleProgram"));
    assert_eq!(init.iface.as_deref(), Some("eth0"));
    assert_eq!(init.prog_type.as_deref(), Some("ip"));
    assert_eq!(init.xdp_action.as_deref(), Some("PASS"));
    assert!(init.hostname.is_none());
    assert!(init.port.is_none());
    assert!(init.username.is_none());
    let wl = init.whitelist.unwrap();
    assert_eq!(wl.enabled, Some(false));
    assert_eq!(wl.max, Some(32));
    assert_eq!(wl.action.as_deref(), Some("allow"));
    let bl = init.blacklist.unwrap();
    assert_eq!(bl.enabled, Some(false));
    assert_eq!(bl.action.as_deref(), Some("deny"));
    let gl = init.graylist.unwrap();
    assert_eq!(gl.enabled, Some(true));
    assert_eq!(gl.action.as_deref(), Some("investigate"));
    assert_eq!(gl.frequency, Some(1000));
    assert_eq!(gl.fast_packet_count, Some(100));
}

#[test]
fn list_accessors_fall_back_to_their_defaults() {
    let wl = Whitelist {
        enabled: None,
        max: None,
        action: None,
    };
    assert_eq!(wl.get_max(), 32);
    assert_eq!(wl.get_action(), "allow");
    let bl = Blacklist {
        enabled: None,
        max: None,
        action: None,
    };
    assert_eq!(bl.get_max(), 32);
    assert_eq!(bl.get_action(), "deny");
    let gl = Graylist {
        enabled: None,
        max: None,
        action: None,
        frequency: None,
        fast_packet_count: None,
    };
    assert_eq!(gl.get_max(), 32);
    assert_eq!(gl.get_action(), "investigate");
    assert_eq!(gl.frequency_or_default(), 1000);
    assert_eq!(gl.fast_packets_or_default(), 100);
}

#[test]
fn list_accessors_prefer_explicit_values() {
    let gl = Graylist {
        enabled: Some(true),
        max: Some(64),
        action: Some(String::from("deny")),
        frequency: Some(250),
        fast_packet_count: Some(5),
    };
    assert_eq!(gl.get_max(), 64);
    assert_eq!(gl.get_action(), "deny");
    assert_eq!(gl.frequency_or_default(), 250);
    assert_eq!(gl.fast_packets_or_default(), 5);
}

#[test]
fn example_config_is_fully_populated() {
    let config = example_config();
    let init = config.init.unwrap();
    assert_eq!(init.name.as_deref(), Some("Example"));
    assert_eq!(init.hostname.as_deref(), Some("100.0.0.10"));
    assert_eq!(init.port, Some(22));
    assert_eq!(init.username.as_deref(), Some("bobthebuilder"));
    assert_eq!(init.graylist.unwrap().fast_packet_count, Some(10));
    let data = config.data.unwrap();
    assert_eq!(data.whitelist.unwrap(), vec![String::from("192.168.1.103")]);
    assert_eq!(data.blacklist.unwrap(), vec![String::from("192.168.1.203")]);
    assert!(data.graylist.unwrap().is_empty());
}

#[test]
fn base_config_is_a_local_starter() {
    let config = base_config();
    let init = config.init.unwrap();
    assert_eq!(init.name.as_deref(), Some("MyFirstProgram"));
    assert!(init.hostname.is_none());
    assert_eq!(init.iface.as_deref(), Some("lo"));
    assert!(init.graylist.is_none());
    assert_eq!(init.whitelist.unwrap().enabled, Some(true));
    assert_eq!(init.blacklist.unwrap().enabled, Some(true));
    let data = config.data.unwrap();
    assert!(data.whitelist.unwrap().is_empty());
    assert!(data.blacklist.unwrap().is_empty());
    assert!(data.graylist.is_none());
}
