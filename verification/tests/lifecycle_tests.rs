use hpx::lifecycle::{
    choose_iface, elevate_cmd, is_local_target, map_dump_cmd, map_show_cmd, map_update_cmd,
    maps_entry, net_attach_cmd, net_detach_cmd, pin_path, plan_unload, prog_load_cmd,
    prog_show_cmd, registry_for_load, remove_pin_cmd, trim_chars, xdp_flag_token, IfaceChoice,
    ListKind, Progs, UnloadError,
};

#[test]
fn unload_without_registry_entry_fails_and_plans_nothing() {
    let r = plan_unload(&None, "TestProg", "eth0", "generic");
    let err = r.err().expect("no registry entry means nothing to unload");
    assert_eq!(err, UnloadError::NothingToUnload);
    assert_eq!(err.message(), "No programs loaded");
}

#[test]
fn unload_with_empty_registry_fails_too() {
    let registry = Some(Progs {
        ids: Vec::new(),
        progs: Vec::new(),
    });
    let r = plan_unload(&registry, "TestProg", "eth0", "generic");
    assert_eq!(r.err().unwrap(), UnloadError::NothingToUnload);
}

#[test]
fn unload_with_an_entry_plans_detach_then_pin_removal() {
    let registry = Some(registry_for_load(42, Vec::new()));
    let plan = plan_unload(&registry, "TestProg", "eth0", "generic").unwrap();
    assert_eq!(plan.detach_cmd, "bpftool net detach xdpgeneric dev eth0");
    assert_eq!(plan.remove_pin_cmd, "rm /sys/fs/bpf/TestProg");
}

#[test]
fn flag_tokens_map_and_fall_back() {
    assert_eq!(xdp_flag_token("generic"), "xdpgeneric");
    assert_eq!(xdp_flag_token("native"), "xdpdrv");
    assert_eq!(xdp_flag_token("offloaded"), "xdpoffload");
    assert_eq!(xdp_flag_token("surprise"), "xdpgeneric");
}

#[test]
fn local_targets_are_recognized() {
    assert!(is_local_target(&None));
    assert!(is_local_target(&Some(String::from("localhost"))));
    assert!(is_local_target(&Some(String::from("127.0.0.1"))));
    assert!(!is_local_target(&Some(String::from("203.0.113.9"))));
}

#[test]
fn interface_resolution_covers_every_case() {
    let cfg = Some(String::from("eth0"));
    assert_eq!(choose_iface(&cfg, "wlan0"), IfaceChoice::ConfirmOverride);
    assert_eq!(choose_iface(&cfg, ""), IfaceChoice::FromConfig);
    assert_eq!(choose_iface(&cfg, "eth0"), IfaceChoice::FromOptions);
    assert_eq!(choose_iface(&None, ""), IfaceChoice::DefaultIface);
    assert_eq!(choose_iface(&None, "wlan0"), IfaceChoice::FromOptions);
}

#[test]
fn commands_have_their_exact_shapes() {
    assert_eq!(pin_path("P"), "/sys/fs/bpf/P");
    assert_eq!(
        prog_load_cmd("/tmp/out/generated.o", "P"),
        "bpftool prog load /tmp/out/generated.o /sys/fs/bpf/P"
    );
    assert_eq!(prog_show_cmd(), "bpftool prog show -j");
    assert_eq!(map_show_cmd(), "bpftool map show -j");
    assert_eq!(map_dump_cmd(17), "bpftool map dump id 17 -j");
    assert_eq!(
        net_attach_cmd("native", 42, "eth0"),
        "bpftool net attach xdpdrv id 42 dev eth0"
    );
    assert_eq!(
        net_detach_cmd("offloaded", "eth1"),
        "bpftool net detach xdpoffload dev eth1"
    );
    assert_eq!(remove_pin_cmd("P"), "rm /sys/fs/bpf/P");
}

#[test]
fn update_command_spells_key_and_zeroed_value() {
    assert_eq!(
        map_update_cmd(7, "10.0.0.5"),
        "bpftool map update id 7 key 10 0 0 5 value 10 0 0 5 0 0 0 0 0 0 0 0 0 0 0 0 0 0 0 0 0 0 0 0 0 0 0 0 0 0 0 0"
    );
}

#[test]
fn update_command_trims_the_address_first() {
    assert_eq!(
        map_update_cmd(1, "  1.2.3.4\n"),
        "bpftool map update id 1 key 1 2 3 4 value 1 2 3 4 0 0 0 0 0 0 0 0 0 0 0 0 0 0 0 0 0 0 0 0 0 0 0 0 0 0 0 0"
    );
}

#[test]
fn elevation_pipes_the_credential_into_the_tool() {
    assert_eq!(
        elevate_cmd("pw", "bpftool prog show -j"),
        "echo pw | sudo -S bpftool prog show -j"
    );
}

#[test]
fn trimming_removes_surrounding_whitespace_only() {
    let v: Vec<char> = " \t10.0.0.5\r\n".chars().collect();
    let trimmed: String = trim_chars(&v).into_iter().collect();
    assert_eq!(trimmed, "10.0.0.5");
    let inner: Vec<char> = "a b".chars().collect();
    let kept: String = trim_chars(&inner).into_iter().collect();
    assert_eq!(kept, "a b");
}

#[test]
fn registry_entries_echo_the_preload() {
    let keys = vec![String::from("10.0.0.5")];
    let entry = maps_entry(ListKind::Blacklist, keys.clone());
    assert!(entry.whitelist.is_none());
    assert!(entry.graylist.is_none());
    let data = entry.blacklist.unwrap();
    assert_eq!(data.key, keys);
    assert!(data.value.is_empty());

    let registry = registry_for_load(9, vec![maps_entry(ListKind::Whitelist, Vec::new())]);
    assert_eq!(registry.ids, vec![9]);
    assert_eq!(registry.progs.len(), 1);
    assert_eq!(registry.progs[0].id, 9);
    assert_eq!(registry.progs[0].data.len(), 1);
}
