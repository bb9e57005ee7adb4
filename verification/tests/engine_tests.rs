use hpx::engine::{
    expand, generate, replace_default_action, replace_g_action, replace_map, replace_name,
    replace_wb_action, EngineError,
};
use hpx::policy::{Blacklist, Config, Data, Graylist, Init, Whitelist};

fn init_with_lists(
    whitelist: Option<Whitelist>,
    blacklist: Option<Blacklist>,
    graylist: Option<Graylist>,
) -> Init {
    Init {
        name: Some(String::from("TestProg")),
        hostname: None,
        port: None,
        username: None,
        iface: Some(String::from("eth0")),
        prog_type: Some(String::from("ip")),
        xdp_action: Some(String::from("PASS")),
        whitelist,
        blacklist,
        graylist,
    }
}

fn config_with_lists(
    whitelist: Option<Whitelist>,
    blacklist: Option<Blacklist>,
    graylist: Option<Graylist>,
) -> Config {
    Config {
        init: Some(init_with_lists(whitelist, blacklist, graylist)),
        data: None,
    }
}

fn list(enabled: bool, action: &str) -> (Whitelist, Blacklist) {
    (
        Whitelist {
            enabled: Some(enabled),
            max: Some(32),
            action: Some(String::from(action)),
        },
        Blacklist {
            enabled: Some(enabled),
            max: Some(32),
            action: Some(String::from(action)),
        },
    )
}

#[test]
fn disabled_lists_leave_no_trace() {
    let (wl, _) = list(false, "allow");
    let (_, bl) = list(false, "deny");
    let config = config_with_lists(Some(wl), Some(bl), None);
    let source = generate(&config).unwrap();
    assert!(!source.contains("whitelist"));
    assert!(!source.contains("blacklist"));
    assert!(!source.contains("graylist"));
    assert!(source.contains("int TestProg(struct xdp_md *ctx)"));
}

#[test]
fn enabled_list_emits_map_and_action() {
    let (_, bl) = list(true, "deny");
    let config = config_with_lists(None, Some(bl), None);
    let source = generate(&config).unwrap();
    assert!(source.contains("#define blacklistmap"));
    assert!(source.contains("} blacklist SEC(\".maps\");"));
    assert!(source.contains("bpf_map_lookup_elem(&blacklist, &src_ip);"));
    assert!(source.contains("XDP_DROP"));
    assert!(!source.contains("whitelist"));
    assert!(!source.contains("graylist"));
}

#[test]
fn allow_action_yields_pass_token() {
    let (wl, _) = list(true, "allow");
    let line = "    {{whitelist_action}}";
    let out = replace_wb_action("ip", &wl, 4, 22, line, "whitelist");
    assert!(out.contains("return XDP_PASS;"));
    assert!(!out.contains("XDP_DROP"));
}

#[test]
fn deny_action_yields_drop_token() {
    let (_, bl) = list(true, "deny");
    let line = "    {{blacklist_action}}";
    let out = replace_wb_action("ip", &bl, 4, 22, line, "blacklist");
    assert!(out.contains("return XDP_DROP;"));
    assert!(!out.contains("XDP_PASS"));
}

#[test]
fn unrecognized_list_action_fails_closed() {
    let (wl, _) = list(true, "frobnicate");
    let line = "    {{whitelist_action}}";
    let out = replace_wb_action("ip", &wl, 4, 22, line, "whitelist");
    assert!(out.contains("return XDP_DROP;"));
    assert!(!out.contains("XDP_PASS"));
}

#[test]
fn unrecognized_default_action_fails_open() {
    // The asymmetry: an unknown per-list action drops, while an unknown
    // default action passes.
    let mut config = config_with_lists(None, None, None);
    config.init.as_mut().unwrap().xdp_action = Some(String::from("hold"));
    let line = "    return {{default_action}};";
    let out = replace_default_action(&config, 11, 27, line);
    assert_eq!(out, "    return XDP_PASS;");
}

#[test]
fn recognized_default_actions_are_honoured() {
    let mut config = config_with_lists(None, None, None);
    config.init.as_mut().unwrap().xdp_action = Some(String::from("drop"));
    let line = "    return {{default_action}};";
    assert_eq!(
        replace_default_action(&config, 11, 27, line),
        "    return XDP_DROP;"
    );
    config.init.as_mut().unwrap().xdp_action = Some(String::from(" pass "));
    assert_eq!(
        replace_default_action(&config, 11, 27, line),
        "    return XDP_PASS;"
    );
}

#[test]
fn generation_is_idempotent() {
    let gl = Graylist {
        enabled: Some(true),
        max: Some(64),
        action: Some(String::from("investigate")),
        frequency: Some(500),
        fast_packet_count: Some(3),
    };
    let (wl, bl) = list(true, "allow");
    let config = config_with_lists(Some(wl), Some(bl), Some(gl));
    let first = generate(&config).unwrap();
    let second = generate(&config).unwrap();
    assert_eq!(first, second);
}

#[test]
fn unknown_program_type_is_a_hard_error() {
    let mut config = config_with_lists(None, None, None);
    config.init.as_mut().unwrap().prog_type = Some(String::from("icmp"));
    let err = generate(&config).unwrap_err();
    assert_eq!(err, EngineError::UnknownProgramType);
    assert_eq!(err.message(), "Unknown program type");
}

#[test]
fn missing_program_type_defaults_to_ip() {
    let mut config = config_with_lists(None, None, None);
    config.init.as_mut().unwrap().prog_type = None;
    let source = generate(&config).unwrap();
    assert!(source.contains("IPPROTO_TCP"));
}

#[test]
fn dns_program_type_selects_the_dns_template() {
    let mut config = config_with_lists(None, None, None);
    config.init.as_mut().unwrap().prog_type = Some(String::from("dns"));
    let source = generate(&config).unwrap();
    assert!(source.contains("IPPROTO_UDP"));
    assert!(source.contains("htons(53)"));
}

#[test]
fn unknown_placeholder_passes_through() {
    let init = init_with_lists(None, None, None);
    let out = expand(&init, false, "keep {{mystery}} intact");
    assert_eq!(out, "keep {{mystery}} intact\n");
}

#[test]
fn unterminated_marker_drops_the_line() {
    let init = init_with_lists(None, None, None);
    let out = expand(&init, false, "before\nbad {{oops\nafter");
    assert_eq!(out, "before\nafter\n");
}

#[test]
fn replace_name_strips_spaces() {
    let mut config = config_with_lists(None, None, None);
    config.init.as_mut().unwrap().name = Some(String::from("My Filter Prog"));
    let line = "int {{name}}(struct xdp_md *ctx) {";
    let out = replace_name(&config, 4, 10, line);
    assert_eq!(out, "int MyFilterProg(struct xdp_md *ctx) {");
}

#[test]
fn map_fragment_has_the_exact_expected_text() {
    let (wl, _) = list(true, "allow");
    let out = replace_map(&wl, 0, 15, "{{whitelist_map}}", "whitelist");
    assert_eq!(
        out,
        "#define whitelistmap\nstruct {\n\t__uint(type, BPF_MAP_TYPE_LRU_HASH);\n\t__type(key, __u32);\n\t__type(value, struct Data);\n\t__uint(max_entries, 32);\n} whitelist SEC(\".maps\");\n"
    );
}

#[test]
fn graylist_binary_action_degenerates_to_plain_logic() {
    let gl = Graylist {
        enabled: Some(true),
        max: Some(32),
        action: Some(String::from("deny")),
        frequency: Some(1000),
        fast_packet_count: Some(100),
    };
    let init = init_with_lists(None, None, Some(gl));
    let line = "    {{graylist_action}}";
    let out = replace_g_action(&init, 4, 21, line, "graylist");
    assert!(out.contains("return XDP_DROP;"));
    assert!(!out.contains("fast_packets"));
}

#[test]
fn graylist_investigate_emits_the_state_machine() {
    let gl = Graylist {
        enabled: Some(true),
        max: Some(32),
        action: Some(String::from("investigate")),
        frequency: Some(1000),
        fast_packet_count: Some(3),
    };
    let init = init_with_lists(None, None, Some(gl));
    let line = "    {{graylist_action}}";
    let out = replace_g_action(&init, 4, 21, line, "graylist");
    assert!(out.contains("(__u64)1000 * MS_IN_NS"));
    assert!(out.contains("fast_packets >= 3"));
    assert!(out.contains("bpf_map_update_elem(&blacklist, &src_ip, &new, BPF_NOEXIST);"));
    assert!(out.contains("return XDP_DROP;"));
}

#[test]
fn scenario_blacklist_only_policy() {
    // Policy: whitelist disabled, blacklist enabled with deny, graylist
    // disabled; blacklist preload of one address.
    let (wl, _) = list(false, "allow");
    let (_, bl) = list(true, "deny");
    let mut config = config_with_lists(Some(wl), Some(bl), None);
    config.data = Some(Data {
        whitelist: None,
        blacklist: Some(vec![String::from("10.0.0.5")]),
        graylist: None,
    });
    let source = generate(&config).unwrap();
    assert!(source.contains("#define blacklistmap"));
    assert!(source.contains("bpf_map_lookup_elem(&blacklist, &src_ip);"));
    assert!(!source.contains("whitelist"));
    assert!(!source.contains("graylist"));

    // Seeding the map from the preload and reading it back yields exactly
    // one record for that address.
    let preload = config.data.as_ref().unwrap().blacklist.as_ref().unwrap();
    let mut records: Vec<Vec<u8>> = Vec::new();
    for addr in preload {
        records.push(hpx::mapsync::encode_ip_value(addr));
    }
    let decoded = hpx::mapsync::distinct_ips(&records);
    assert_eq!(decoded, vec![String::from("10.0.0.5")]);
}

#[test]
fn disabled_list_settings_do_not_influence_the_source() {
    let wl_a = Whitelist {
        enabled: Some(false),
        max: Some(32),
        action: Some(String::from("allow")),
    };
    let wl_b = Whitelist {
        enabled: Some(false),
        max: Some(9999),
        action: Some(String::from("deny")),
    };
    let (_, bl) = list(true, "deny");
    let with_a = config_with_lists(Some(wl_a), Some(bl.clone()), None);
    let with_b = config_with_lists(Some(wl_b), Some(bl), None);
    assert_eq!(generate(&with_a).unwrap(), generate(&with_b).unwrap());
}

#[test]
fn default_policy_emits_the_default_tuned_state_machine() {
    let config = Config::default();
    let source = generate(&config).unwrap();
    // Only the rate-limiting list is enabled by default, tuned with the
    // documented window and bound.
    assert!(source.contains("#define graylistmap"));
    assert!(source.contains("(__u64)1000 * MS_IN_NS"));
    assert!(source.contains("fast_packets >= 100"));
    assert!(!source.contains("#define whitelistmap"));
    assert!(!source.contains("#define blacklistmap"));
    assert!(source.contains("int ExampleProgram(struct xdp_md *ctx)"));
    assert!(source.contains("return XDP_PASS;"));
}

#[test]
fn empty_template_expands_to_nothing() {
    let init = init_with_lists(None, None, None);
    assert_eq!(expand(&init, false, ""), "");
}
