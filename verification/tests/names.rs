use husker_core::error::CoreError;
use husker_core::names::{
    apply_boot_init, default_ready_timeout, infer_image_format, instance_name,
    kernel_module_mismatch_hint, looks_like_path, oci_ref_to_catalog_name, oci_source_path,
    strip_oci_scheme, validate_host_path, validate_image_kind, validate_network_mode,
    validate_resource_name, validate_service_instance_names, DEFAULT_READY_TIMEOUT_SECS,
    UEFI_READY_TIMEOUT_SECS,
};
use husker_core::requests::DaemonProfile;

fn argument(e: CoreError) -> String {
    match e {
        CoreError::InvalidArgument(m) => m,
        other => panic!("expected InvalidArgument, got {other:?}"),
    }
}

#[test]
fn apply_boot_init_appends_supervisor_tokens_when_set() {
    let base = "console=ttyS0 reboot=k panic=1 pci=off root=/dev/vda rw \
                    ip=172.20.0.2::172.20.0.1:255.255.255.252::eth0:off";
    let cmd = apply_boot_init(base, Some("/usr/local/bin/husker-agent"));
    assert!(cmd.contains("init=/usr/local/bin/husker-agent"));
    assert!(cmd.contains("husker.init=1"));
    // Unchanged when no boot_init is set.
    assert_eq!(apply_boot_init(base, None), base);
    // A user-supplied explicit init= wins (left untouched).
    let with_init = "console=ttyS0 init=/sbin/myinit";
    assert_eq!(
        apply_boot_init(with_init, Some("/usr/local/bin/husker-agent")),
        with_init
    );
}

#[test]
fn only_a_whole_word_counts_as_an_explicit_init() {
    assert_eq!(apply_boot_init("rdinit=/x", Some("/a")), "rdinit=/x init=/a husker.init=1");
    assert_eq!(apply_boot_init("init=/x", Some("/a")), "init=/x");
    assert_eq!(apply_boot_init("a\u{3000}init=/x", Some("/a")), "a\u{3000}init=/x");
}

#[test]
fn oci_ref_to_catalog_name_sanitizes_deterministically() {
    assert_eq!(
        oci_ref_to_catalog_name("python:3.12-alpine"),
        "python-3.12-alpine"
    );
    assert_eq!(oci_ref_to_catalog_name("ghcr.io/o/r:v1"), "ghcr.io-o-r-v1");
    assert_eq!(oci_ref_to_catalog_name("alpine"), "alpine");
    // Deterministic (so repeat runs of the same ref reuse the cached import).
    assert_eq!(
        oci_ref_to_catalog_name("python:3.12-alpine"),
        oci_ref_to_catalog_name("python:3.12-alpine")
    );
}

#[test]
fn catalog_names_map_onto_themselves() {
    let once = oci_ref_to_catalog_name("ghcr.io/o/r@sha256:ab");
    assert_eq!(once, "ghcr.io-o-r-sha256-ab");
    assert_eq!(oci_ref_to_catalog_name(&once), once);
}

#[test]
fn looks_like_path_distinguishes_paths_from_refs() {
    assert!(looks_like_path("/var/lib/husker/x.ext4"));
    assert!(looks_like_path("./rel.ext4"));
    assert!(looks_like_path("../up.ext4"));
    // Image names and OCI refs are not path-shaped.
    assert!(!looks_like_path("myimg"));
    assert!(!looks_like_path("python:3.12-alpine"));
    assert!(!looks_like_path("ghcr.io/o/r:v1"));
}

#[test]
fn kernel_module_mismatch_hint_detects_abi_failures() {
    // The classic stale-baked-module signatures.
    assert!(
        kernel_module_mismatch_hint("vsock: disagrees about version of symbol module_layout")
            .is_some()
    );
    assert!(kernel_module_mismatch_hint("insmod: ERROR: Invalid module format").is_some());
    // A normal boot tail produces no module hint.
    assert!(kernel_module_mismatch_hint("husker-init: skipped virtio_blk (built-in)").is_none());
}

#[test]
fn import_image_kind_validation() {
    assert_eq!(validate_image_kind(None).unwrap(), "rootfs");
    assert_eq!(
        validate_image_kind(Some("cloud-image")).unwrap(),
        "cloud-image"
    );
    assert_eq!(validate_image_kind(Some("rootfs")).unwrap(), "rootfs");
    assert!(validate_image_kind(Some("bogus")).is_err());
}

#[test]
fn ready_timeout_is_boot_mode_aware() {
    assert_eq!(
        std::time::Duration::from_secs(default_ready_timeout("direct")),
        std::time::Duration::from_secs(DEFAULT_READY_TIMEOUT_SECS)
    );
    assert_eq!(
        std::time::Duration::from_secs(default_ready_timeout("uefi")),
        std::time::Duration::from_secs(UEFI_READY_TIMEOUT_SECS)
    );
    assert_eq!(
        std::time::Duration::from_secs(default_ready_timeout("efi")),
        std::time::Duration::from_secs(UEFI_READY_TIMEOUT_SECS)
    );
    assert_eq!(default_ready_timeout("anything"), 120);
}

#[test]
fn validate_network_mode_defaults_to_nat() {
    assert_eq!(validate_network_mode(None).unwrap(), "nat");
}

#[test]
fn validate_network_mode_accepts_nat() {
    assert_eq!(validate_network_mode(Some("nat")).unwrap(), "nat");
}

#[test]
fn validate_network_mode_accepts_bridged() {
    assert_eq!(validate_network_mode(Some("bridged")).unwrap(), "bridged");
}

#[test]
fn validate_network_mode_rejects_unknown() {
    let err = validate_network_mode(Some("vxlan")).unwrap_err();
    assert!(
        matches!(err, CoreError::InvalidArgument(ref msg) if msg.contains("vxlan")),
        "expected InvalidArgument mentioning the unknown mode, got {err:?}"
    );
}

#[test]
fn daemon_profile_default_is_all_none() {
    let p = DaemonProfile::default();
    assert!(p.cpus.is_none());
    assert!(p.memory.is_none());
    assert!(p.rootfs.is_none());
    assert!(p.env.is_empty());
    assert!(p.mounts.is_empty());
}

#[test]
fn reported_source_path_carries_exactly_one_scheme() {
    // `image list` prints `oci://alpine:3.20`, and importing that value again must
    // not record `oci://oci://alpine:3.20`.
    for reference in ["alpine:3.20", "ghcr.io/rvben/husker:v1"] {
        let reported = oci_source_path(reference);
        assert_eq!(reported, format!("oci://{reference}"));
        assert_eq!(
            oci_source_path(&reported),
            reported,
            "re-importing the reported source_path must not stack a second scheme"
        );
        assert_eq!(strip_oci_scheme(&reported), reference);
    }
}

#[test]
fn resource_names_are_checked_rule_by_rule() {
    assert!(validate_resource_name("vm", "a-B_c.9").is_ok());
    assert!(validate_resource_name("vm", &"a".repeat(64)).is_ok());
    assert_eq!(argument(validate_resource_name("vm", "").unwrap_err()), "vm name cannot be empty");
    assert_eq!(
        argument(validate_resource_name("vm", &"a".repeat(65)).unwrap_err()),
        "vm name exceeds maximum length of 64"
    );
    assert_eq!(
        argument(validate_resource_name("vm", ".hidden").unwrap_err()),
        "vm name '.hidden' cannot start with '.'"
    );
    for bad in ["../escape", "a/b", "a b", "a\0b", "caf\u{e9}"] {
        if bad.starts_with('.') {
            continue;
        }
        assert_eq!(
            argument(validate_resource_name("pool", bad).unwrap_err()),
            format!("pool name '{bad}' contains invalid character; allowed: [A-Za-z0-9._-]")
        );
    }
    // The limit counts bytes: 33 two-byte letters are too long before they are invalid.
    assert_eq!(
        argument(validate_resource_name("vm", &"\u{e9}".repeat(33)).unwrap_err()),
        "vm name exceeds maximum length of 64"
    );
}

#[test]
fn service_instances_are_named_by_ordinal() {
    assert_eq!(instance_name("web", 0), "web-0");
    assert_eq!(instance_name("web", 4294967295), "web-4294967295");
    let long = "a".repeat(62);
    assert!(validate_service_instance_names(&long, 10).is_ok());
    assert!(validate_service_instance_names(&long, 11).is_err());
    assert!(validate_service_instance_names(&"a".repeat(80), 0).is_ok());
}

#[test]
fn host_paths_are_absolute_plain_and_no_links() {
    assert!(validate_host_path("mount", "/srv/a..b", false).is_ok());
    assert_eq!(
        argument(validate_host_path("mount", "srv", false).unwrap_err()),
        "mount path must be absolute, got srv"
    );
    assert_eq!(
        argument(validate_host_path("mount", "/srv/../etc", false).unwrap_err()),
        "mount path must not contain '..' segments: /srv/../etc"
    );
    assert_eq!(
        argument(validate_host_path("mount", "/srv", true).unwrap_err()),
        "mount path must not be a symlink: /srv"
    );
}

#[test]
fn image_formats_come_from_the_extension() {
    assert_eq!(infer_image_format("/a/b.QCOW2"), "qcow2");
    assert_eq!(infer_image_format("/a/b.tar.GZ"), "gz");
    assert_eq!(infer_image_format("/a.x/b"), "ext4");
    assert_eq!(infer_image_format("/a/.hidden"), "ext4");
    assert_eq!(infer_image_format("/a/b."), "");
    assert_eq!(infer_image_format("/a/b.img/"), "img");
    assert_eq!(infer_image_format("/a/b.img/."), "img");
    assert_eq!(infer_image_format("/a/.."), "ext4");
}

#[test]
fn instances_of_different_services_have_different_names() {
    assert_ne!(instance_name("web", 11), instance_name("web-1", 1));
    assert_eq!(instance_name("web-1", 1), "web-1-1");
    assert_ne!(instance_name("web", 1), instance_name("web", 11));
}
