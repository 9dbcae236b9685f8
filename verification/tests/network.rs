use husker_core::egress::{
    absorb, bare_host, check_rule, check_rule_count, lookup_failed, resolve_egress_rules,
    validate_host, EgressRuleRequest, HostLookup, Protocol, ResolvedEgressRule, MAX_REQUESTED_EGRESS_RULES,
    MAX_RESOLVED_EGRESS_RULES,
};
use husker_core::error::{CoreError, StateError};
use husker_core::ipv4::{is_non_unicast, is_plausible_guest_ip, parse_ipv4, Ipv4};
use husker_core::mount::parse_mount_spec;
use husker_core::network::{
    bind_error, check_balloon, discover_guest_ip, forward_insert_error, forward_route,
    forward_tap,
    plan_forward_removal,
    listener_target, needs_resume_listeners, new_port_forward, owns_forward, plan_port_forward,
    plan_proxy_forward, proxy_insert_error, restore_forwards, wants_guest_ip, BindAddress,
    BindFailure, ForwardPlan, ForwardRestore,
};
use husker_core::records::{PortForwardRecord, VmRecord};
use husker_core::requests::PortForwardReconcile;
use husker_core::settings::Platform;
use husker_core::time::Timestamp;

fn t(secs: i64) -> Timestamp {
    Timestamp::new(secs, 0).unwrap()
}

fn ip(text: &str) -> Ipv4 {
    parse_ipv4(text).unwrap()
}

fn argument(e: CoreError) -> String {
    match e {
        CoreError::InvalidArgument(m) => m,
        other => panic!("expected InvalidArgument, got {other:?}"),
    }
}

#[test]
fn plausible_guest_ip_accepts_lan_and_nat_addresses() {
    for text in ["192.168.64.2", "10.0.2.15", "172.20.0.3", "198.51.100.7"] {
        assert!(is_plausible_guest_ip(&ip(text)), "{text} should be accepted");
    }
}

#[test]
fn plausible_guest_ip_rejects_untrustworthy_addresses() {
    // A compromised guest could report any of these; the host must not act on them.
    for text in [
        "127.0.0.1",       // loopback -> would redirect port forwards to host services
        "0.0.0.0",         // unspecified
        "255.255.255.255", // broadcast
        "169.254.10.1",    // link-local
        "224.0.0.1",       // multicast
    ] {
        assert!(!is_plausible_guest_ip(&ip(text)), "{text} must be rejected");
    }
}

#[test]
fn addresses_parse_as_they_print() {
    for text in ["0.0.0.0", "1.2.3.4", "255.255.255.255", "10.200.0.99"] {
        assert_eq!(ip(text).text(), text);
    }
    for text in ["", "1.2.3", "1.2.3.4.5", "256.0.0.1", "01.2.3.4", "1.2.3.4 ", "a.b.c.d", "1..2.3", "::1"] {
        assert!(parse_ipv4(text).is_none(), "{text:?} must not parse");
    }
    assert!(is_non_unicast(&ip("239.255.255.255")));
    assert!(!is_non_unicast(&ip("223.255.255.255")));
}

#[test]
fn parse_mount_spec_defaults_and_ro() {
    let s = parse_mount_spec("/srv/work", 0).unwrap();
    assert_eq!(
        (s.host.as_str(), s.guest.as_str(), s.read_only, s.tag.as_str()),
        ("/srv/work", "/mnt/work", false, "fs0")
    );
    let s = parse_mount_spec("/srv/work:/build:ro", 2).unwrap();
    assert_eq!(
        (s.host.as_str(), s.guest.as_str(), s.read_only, s.tag.as_str()),
        ("/srv/work", "/build", true, "fs2")
    );
}

#[test]
fn parse_mount_spec_two_part_ro_shorthand() {
    // A second part that is exactly "ro" means read-only at the default place.
    let s = parse_mount_spec("/data:ro", 1).unwrap();
    assert_eq!(s.host, "/data");
    assert_eq!(s.guest, "/mnt/data");
    assert!(s.read_only);
    assert_eq!(s.tag, "fs1");
}

#[test]
fn parse_mount_spec_two_part_custom_guest_rw() {
    let s = parse_mount_spec("/host/src:/workspace", 3).unwrap();
    assert_eq!(s.host, "/host/src");
    assert_eq!(s.guest, "/workspace");
    assert!(!s.read_only);
    assert_eq!(s.tag, "fs3");
}

#[test]
fn parse_mount_spec_errors() {
    // Relative host path.
    assert!(parse_mount_spec("relative/path:/guest", 0).is_err());
    // Empty host path.
    assert!(parse_mount_spec(":/guest", 0).is_err());
    // Non-absolute guest path.
    assert!(parse_mount_spec("/host:relative/guest", 0).is_err());
    // Unknown trailing option.
    assert!(parse_mount_spec("/host:/guest:rw", 0).is_err());
    // Host path with ".." component.
    assert!(parse_mount_spec("/host/../etc:/guest", 0).is_err());
}

fn rule(host: &str, port: u16, protocol: &str) -> EgressRuleRequest {
    EgressRuleRequest { host: host.into(), port, protocol: protocol.into() }
}

/// What a list of rules on literal addresses resolves to.
fn resolve(rules: Vec<EgressRuleRequest>) -> Result<Vec<ResolvedEgressRule>, CoreError> {
    let lookups = rules
        .iter()
        .map(|_| HostLookup { is_ipv6: false, answer: Err("not looked up".into()) })
        .collect();
    resolve_egress_rules(&rules, &lookups)
}

#[test]
fn resolves_and_deduplicates_literal_destinations() {
    let resolved = resolve(vec![
        rule("203.0.113.8", 443, "tcp"),
        rule("203.0.113.8", 443, "TCP"),
    ])
    .unwrap();
    assert_eq!(resolved.len(), 1);
    assert_eq!(resolved[0].destination, ip("203.0.113.8"));
    assert_eq!(resolved[0].protocol.as_str(), "tcp");
}

#[test]
fn rejects_urls_wildcards_and_unsupported_protocols() {
    for host in ["https://example.com", "*.example.com", "example.com/path"] {
        let error = resolve(vec![rule(host, 443, "tcp")]).unwrap_err();
        assert!(error.message().contains("hostname or IP address"));
    }
    let error = resolve(vec![rule("203.0.113.8", 53, "sctp")]).unwrap_err();
    assert!(error.message().contains("must be tcp or udp"));
}

#[test]
fn rejects_non_unicast_and_zero_port() {
    for host in ["0.0.0.0", "224.0.0.1", "255.255.255.255"] {
        let error = resolve(vec![rule(host, 443, "tcp")]).unwrap_err();
        assert!(error.message().contains("non-unicast"));
    }
    let error = resolve(vec![rule("203.0.113.8", 0, "tcp")]).unwrap_err();
    assert!(error.message().contains("between 1 and 65535"));
}

#[test]
fn resolved_rules_come_in_order_whatever_order_they_came_in() {
    let a = rule("10.0.0.2", 443, "tcp");
    let b = rule("10.0.0.1", 53, "udp");
    let c = rule("10.0.0.1", 53, "tcp");
    let d = rule("10.0.0.1", 22, "tcp");
    let one = resolve(vec![a, b, c, d]).unwrap();
    let two = resolve(vec![
        rule("10.0.0.1", 22, "tcp"),
        rule("10.0.0.1", 53, "tcp"),
        rule("10.0.0.1", 53, "udp"),
        rule("10.0.0.2", 443, "tcp"),
    ])
    .unwrap();
    assert_eq!(one, two);
    assert_eq!(one.len(), 4);
    assert_eq!(one[0].destination, ip("10.0.0.1"));
    assert_eq!(one[3].destination, ip("10.0.0.2"));
}

#[test]
fn names_resolve_to_what_they_were_looked_up_to() {
    let rules = vec![rule("CDN.example.com.", 443, "tcp"), rule("10.0.0.9", 53, "udp")];
    let looked = |answer: Result<Vec<Ipv4>, String>| {
        vec![
            HostLookup { is_ipv6: false, answer },
            HostLookup { is_ipv6: false, answer: Ok(vec![]) },
        ]
    };
    let found = vec![ip("10.0.0.3"), ip("10.0.0.2"), ip("10.0.0.3")];
    let resolved = resolve_egress_rules(&rules, &looked(Ok(found))).unwrap();
    let destinations: Vec<Ipv4> = resolved.iter().map(|r| r.destination).collect();
    assert_eq!(destinations, [ip("10.0.0.2"), ip("10.0.0.3"), ip("10.0.0.9")]);
    assert_eq!((resolved[2].port, resolved[2].protocol), (53, Protocol::Udp));
    assert_eq!(
        argument(resolve_egress_rules(&rules, &looked(Ok(vec![]))).unwrap_err()),
        "egress[0].host resolved to no IPv4 addresses"
    );
    assert_eq!(
        argument(resolve_egress_rules(&rules, &looked(Err("no such host".into()))).unwrap_err()),
        "egress[0].host could not be resolved: no such host"
    );
    let many: Vec<EgressRuleRequest> = (0..33).map(|_| rule("10.0.0.1", 1, "tcp")).collect();
    assert_eq!(
        argument(resolve(many).unwrap_err()),
        "egress accepts at most 32 destination rules"
    );
}

#[test]
fn the_number_of_rules_is_limited() {
    assert!(check_rule_count(MAX_REQUESTED_EGRESS_RULES).is_ok());
    assert_eq!(
        argument(check_rule_count(MAX_REQUESTED_EGRESS_RULES + 1).unwrap_err()),
        "egress accepts at most 32 destination rules"
    );
    let target = check_rule(0, &rule("cdn.example.com", 443, "tcp"), false).unwrap();
    assert!(target.literal.is_none());
    let many: Vec<Ipv4> = (0..=MAX_RESOLVED_EGRESS_RULES)
        .map(|i| Ipv4 { a: 10, b: 0, c: (i / 256) as u8, d: (i % 256) as u8 })
        .collect();
    let fit = absorb(vec![], 0, &target, &many[..MAX_RESOLVED_EGRESS_RULES].to_vec()).unwrap();
    assert_eq!(fit.len(), MAX_RESOLVED_EGRESS_RULES);
    assert_eq!(
        argument(absorb(vec![], 0, &target, &many).unwrap_err()),
        "egress resolves to more than 128 concrete destinations"
    );
}

#[test]
fn hosts_are_checked_rule_by_rule() {
    assert_eq!(bare_host("  Example.COM.  "), "Example.COM");
    assert_eq!(validate_host("Example.COM", false).unwrap(), "example.com");
    assert_eq!(validate_host("10.0.0.1", false).unwrap(), "10.0.0.1");
    assert_eq!(validate_host("", false).unwrap_err(), "is required");
    assert_eq!(validate_host(&"a".repeat(254), false).unwrap_err(), "must be at most 253 bytes");
    assert_eq!(
        validate_host("ex ample", false).unwrap_err(),
        "must contain only printable ASCII hostname characters"
    );
    for bad in ["-a.com", "a-.com", "a..com", "a_b.com"] {
        assert_eq!(validate_host(bad, false).unwrap_err(), "is not a valid DNS hostname");
    }
    let long = format!("{}.com", "a".repeat(64));
    assert!(validate_host(&long, false).is_err());
    assert!(validate_host(&format!("{}.com", "a".repeat(63)), false).is_ok());
    assert_eq!(
        argument(check_rule(2, &rule("2001:db8::1", 443, "tcp"), true).unwrap_err()),
        "egress[2].host must resolve to IPv4; IPv6 egress is not supported"
    );
    assert_eq!(
        argument(lookup_failed(1, "no such host")),
        "egress[1].host could not be resolved: no such host"
    );
    let t = check_rule(0, &rule("a.example", 53, "Udp"), false).unwrap();
    assert_eq!(t.protocol, Protocol::Udp);
}

fn nat_vm(name: &str) -> VmRecord {
    VmRecord {
        id: 1,
        name: name.into(),
        state: "running".into(),
        pid: None,
        vcpu_count: 1,
        mem_size_mib: 128,
        vsock_cid: 3,
        tap_device: None,
        host_ip: None,
        guest_ip: Some("127.0.0.1".into()),
        kernel_path: String::new(),
        rootfs_path: "/images/ubuntu.qcow2".into(),
        created_at: t(0),
        updated_at: t(0),
        userdata: None,
        userdata_status: None,
        userdata_env: None,
        service_id: None,
        service_ordinal: None,
        vmm: "apple_vz".into(),
        boot_mode: "efi".into(),
        balloon: false,
        volume: None,
        network: "nat".into(),
        last_activity_at: t(0),
        suspended_at: None,
        idle_timeout_secs: None,
        suspend_ttl_secs: None,
        auto_resume: true,
        forked_from: None,
    }
}

#[test]
fn add_port_forward_rejects_bridged_vm() {
    let mut vm = nat_vm("bridged-vm");
    vm.guest_ip = None;
    vm.tap_device = Some("husker10".into());
    vm.network = "bridged".into();
    let err = plan_port_forward("bridged-vm", &vm, 8080, 80, &None, &vec![]).unwrap_err();
    assert!(
        matches!(err, CoreError::InvalidArgument(ref msg) if msg.contains("bridged")),
        "expected InvalidArgument mentioning bridged, got {err:?}"
    );
}

#[test]
fn add_port_forward_rejects_non_running_vm() {
    let mut vm = nat_vm("pf-stopped");
    vm.state = "stopped".into();
    let err = plan_proxy_forward("pf-stopped", &vm, 18080, 80, "127.0.0.1", &vec![]).unwrap_err();
    assert!(matches!(err, CoreError::InvalidState { .. }));
}

#[test]
fn add_port_forward_rejects_missing_guest_ip() {
    let mut vm = nat_vm("pf-noip");
    vm.guest_ip = None;
    let err = plan_proxy_forward("pf-noip", &vm, 18081, 80, "127.0.0.1", &vec![]).unwrap_err();
    assert!(matches!(err, CoreError::InvalidState { .. }));
}

#[test]
fn add_port_forward_same_port_different_bind_conflicts() {
    let vm = nat_vm("vm-c");
    let host_port = 18082;
    let first = new_port_forward(vm.id, host_port, 80, Some("127.0.0.1".into()), t(1));
    let existing = vec![first];
    // A different bind address is no match: the forward is tried, and the port is taken.
    let other = plan_proxy_forward("vm-c", &vm, host_port, 80, "0.0.0.0", &existing).unwrap();
    assert_eq!(other.unwrap_err(), ip("127.0.0.1"));
    let err = bind_error(host_port, BindFailure::InUse);
    assert!(matches!(err, CoreError::PortForwardConflict(_)));
    // Same bind -> idempotent.
    let rec = plan_proxy_forward("vm-c", &vm, host_port, 80, "127.0.0.1", &existing).unwrap().unwrap();
    assert_eq!(rec.host_port, host_port);
}

#[test]
fn kernel_forwards_need_an_address_and_a_tap() {
    let mut vm = nat_vm("v");
    vm.guest_ip = Some("172.20.0.2".into());
    let named = |e: CoreError| match e {
        CoreError::VmNotFound(m) => m,
        other => panic!("expected VmNotFound, got {other:?}"),
    };
    assert_eq!(
        named(plan_port_forward("v", &vm, 8080, 80, &None, &vec![]).unwrap_err()),
        "v: no TAP device"
    );
    vm.tap_device = Some("husker3".into());
    match plan_port_forward("v", &vm, 8080, 80, &None, &vec![]).unwrap() {
        ForwardPlan::Add { guest_ip, tap } => {
            assert_eq!(guest_ip, ip("172.20.0.2"));
            assert_eq!(tap, "husker3");
        }
        other => panic!("expected a new forward, got {other:?}"),
    }
    let all = Some(BindAddress { text: "0.0.0.0".into(), unspecified: true });
    assert!(plan_port_forward("v", &vm, 8080, 80, &all, &vec![]).is_ok());
    let one = Some(BindAddress { text: "10.0.0.1".into(), unspecified: false });
    assert!(argument(plan_port_forward("v", &vm, 8080, 80, &one, &vec![]).unwrap_err())
        .starts_with("--bind 10.0.0.1 is not supported"));
    let existing = vec![new_port_forward(1, 8080, 80, None, t(5))];
    assert!(matches!(
        plan_port_forward("v", &vm, 8080, 80, &None, &existing).unwrap(),
        ForwardPlan::Existing(PortForwardRecord { host_port: 8080, guest_port: 80, .. })
    ));
    assert!(matches!(
        plan_port_forward("v", &vm, 8080, 81, &None, &existing).unwrap(),
        ForwardPlan::Add { .. }
    ));
    vm.guest_ip = Some("nonsense".into());
    assert_eq!(
        named(plan_port_forward("v", &vm, 8080, 80, &None, &vec![]).unwrap_err()),
        "v: invalid guest IP"
    );
    vm.guest_ip = None;
    assert_eq!(
        named(plan_port_forward("v", &vm, 8080, 80, &None, &vec![]).unwrap_err()),
        "v: no guest IP"
    );
}

#[test]
fn forward_failures_are_told_apart() {
    assert!(matches!(bind_error(80, BindFailure::PermissionDenied), CoreError::PortForwardDenied(80)));
    assert!(matches!(bind_error(80, BindFailure::Other("x".into())), CoreError::Io(m) if m == "x"));
    assert!(matches!(
        forward_insert_error(StateError::PortAlreadyForwarded(81)),
        CoreError::PortForwardConflict(81)
    ));
    assert!(matches!(
        proxy_insert_error(40000, StateError::PortAlreadyForwarded(0)),
        CoreError::PortForwardConflict(40000)
    ));
    assert!(matches!(
        proxy_insert_error(40000, StateError::Other("x".into())),
        CoreError::State(StateError::Other(_))
    ));
    let vm = nat_vm("v");
    assert!(matches!(forward_tap("v", &vm), Err(CoreError::VmNotFound(_))));
}

#[test]
fn remove_port_forward_is_scoped_to_its_owner() {
    let forwards_of_a = vec![new_port_forward(1, 8080, 80, None, t(0))];
    assert!(owns_forward(&forwards_of_a, 8080));
    assert!(!owns_forward(&vec![], 8080));
    assert!(!owns_forward(&forwards_of_a, 8081));
}

#[test]
fn suspended_vms_get_listeners_in_place_of_forwards() {
    let mut vm = nat_vm("v");
    vm.guest_ip = Some("172.20.0.2".into());
    vm.tap_device = Some("husker3".into());
    assert!(matches!(restore_forwards(&vm), ForwardRestore::Restore { .. }));
    assert!(!needs_resume_listeners(&vm, 1));
    vm.state = "suspended".into();
    assert!(matches!(restore_forwards(&vm), ForwardRestore::Suspended));
    assert_eq!(forward_route(&vm).map(|route| route.1), vm.tap_device);
    assert!(needs_resume_listeners(&vm, 1));
    assert!(!needs_resume_listeners(&vm, 0));
    assert_eq!(listener_target(&vm), Some(ip("172.20.0.2")));
    vm.auto_resume = false;
    assert!(!needs_resume_listeners(&vm, 1));
    vm.state = "running".into();
    vm.tap_device = None;
    assert!(matches!(restore_forwards(&vm), ForwardRestore::Skip));
    let mut counts = PortForwardReconcile::default();
    counts.count_restored();
    counts.count_suspended();
    counts.count_suspended();
    assert_eq!((counts.restored, counts.skipped_suspended), (1, 2));
}

#[test]
fn guests_report_their_address_once() {
    let mut vm = nat_vm("v");
    vm.guest_ip = None;
    assert!(wants_guest_ip(&vm));
    assert!(!discover_guest_ip(&mut vm, None));
    assert!(!discover_guest_ip(&mut vm, Some("127.0.0.1")));
    assert!(vm.guest_ip.is_none());
    assert!(discover_guest_ip(&mut vm, Some("192.168.64.2")));
    assert_eq!(vm.guest_ip.as_deref(), Some("192.168.64.2"));
    assert!(!discover_guest_ip(&mut vm, Some("192.168.64.3")));
    assert_eq!(vm.guest_ip.as_deref(), Some("192.168.64.2"));
}

#[test]
fn balloons_need_a_running_vm_that_has_one() {
    let mut vm = nat_vm("v");
    assert_eq!(argument(check_balloon("v", &vm).unwrap_err()), "VM 'v' was created without --balloon");
    vm.balloon = true;
    assert!(check_balloon("v", &vm).is_ok());
    vm.state = "paused".into();
    assert!(matches!(
        check_balloon("v", &vm),
        Err(CoreError::InvalidState { actual, expected, .. }) if actual == "paused" && expected == "running"
    ));
}

#[test]
fn remove_port_forward_scoped_to_owning_vm() {
    let mut a = nat_vm("vm-a");
    let mut b = nat_vm("vm-b");
    a.tap_device = Some("husker3".into());
    b.tap_device = Some("husker4".into());
    let of_a = vec![new_port_forward(a.id, 18080, 80, None, t(0))];
    for platform in [Platform::Linux, Platform::Macos] {
        // The forward of vm-a survives a removal on behalf of vm-b.
        let wrong = plan_forward_removal("vm-b", &b, platform, &vec![], 18080).unwrap();
        assert!(!wrong.owned);
        let right = plan_forward_removal("vm-a", &a, platform, &of_a, 18080).unwrap();
        assert!(right.owned);
        assert!(!plan_forward_removal("vm-a", &a, platform, &of_a, 18081).unwrap().owned);
    }
    // The kernel's rule goes by the VM's own TAP device.
    assert_eq!(
        plan_forward_removal("vm-b", &b, Platform::Linux, &vec![], 18080).unwrap().tap,
        Some("husker4")
    );
    assert_eq!(
        plan_forward_removal("vm-a", &a, Platform::Macos, &of_a, 18080).unwrap().tap,
        None
    );
    b.tap_device = None;
    assert!(matches!(
        plan_forward_removal("vm-b", &b, Platform::Linux, &vec![], 18080),
        Err(CoreError::VmNotFound(m)) if m == "vm-b: no TAP device"
    ));
    assert!(plan_forward_removal("vm-b", &b, Platform::Macos, &vec![], 18080).is_ok());
}
