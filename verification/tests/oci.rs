use husker_core::error::CoreError;
use husker_core::oci::{
    guest_runtime, is_within, link_candidate, map_oci_materialization_error, oci_architecture,
    rootfs_image_size, Found, LocalOciImageMaterializer, OciMaterializationError,
    OciMaterializationRequest, RuntimeEntry, Way, WayStep, MAX_ROOTFS_BYTES,
};
use husker_core::path::{extension, file_name, has_parent_segment, is_absolute, join, same_path};

const MIB: u64 = 1024 * 1024;

#[test]
fn small_images_get_the_headroom_floor() {
    assert_eq!(rootfs_image_size(135 * MIB), (135 + 512 + 64) * MIB);
    assert_eq!(rootfs_image_size(8 * MIB), (8 + 512 + 64) * MIB);
}

#[test]
fn large_images_keep_proportional_headroom() {
    let tree = 2200 * MIB;
    assert_eq!(rootfs_image_size(tree), tree * 2 + 64 * MIB);
}

#[test]
fn architecture_mapping_is_owned_by_the_materializer() {
    assert_eq!(oci_architecture("x86_64").unwrap(), "amd64");
    assert_eq!(oci_architecture("aarch64").unwrap(), "arm64");
    assert!(matches!(
        oci_architecture("riscv64"),
        Err(OciMaterializationError::UnsupportedArchitecture(arch)) if arch == "riscv64"
    ));
}

#[test]
fn empty_agent_is_rejected_before_any_pull_or_artifact() {
    let request = OciMaterializationRequest {
        reference: "registry.invalid/example:latest",
        destination: "/w/artifact.ext4",
        guest_agent: &[],
    };
    let error = LocalOciImageMaterializer.check_request(&request, false, "x86_64").unwrap_err();
    assert!(matches!(error, OciMaterializationError::MissingGuestAgent));
}

#[test]
fn existing_destination_is_preserved_without_pulling() {
    let request = OciMaterializationRequest {
        reference: "registry.invalid/example:latest",
        destination: "/w/artifact.ext4",
        guest_agent: b"AGENT",
    };
    let error = LocalOciImageMaterializer.check_request(&request, true, "x86_64").unwrap_err();
    assert!(matches!(error, OciMaterializationError::Storage(_)));
    assert!(error.message().contains("/w/artifact.ext4"));
    assert_eq!(
        LocalOciImageMaterializer.check_request(&request, false, "x86_64").unwrap(),
        "amd64"
    );
}

#[test]
fn oversized_tree_is_rejected_before_destination_creation() {
    let error = LocalOciImageMaterializer.size_image(MAX_ROOTFS_BYTES + 1).unwrap_err();
    assert!(matches!(
        error,
        OciMaterializationError::RootfsTooLarge {
            actual,
            limit: MAX_ROOTFS_BYTES
        } if actual > MAX_ROOTFS_BYTES
    ));
    let image = LocalOciImageMaterializer.size_image(MAX_ROOTFS_BYTES).unwrap();
    assert!(image.size_bytes > MAX_ROOTFS_BYTES);
}

#[test]
fn import_failures_are_sorted_by_whose_fault_they_are() {
    let arg = |e| matches!(map_oci_materialization_error(e), CoreError::InvalidArgument(_));
    assert!(arg(OciMaterializationError::MissingGuestAgent));
    assert!(arg(OciMaterializationError::UnsupportedArchitecture("vax".into())));
    assert!(arg(OciMaterializationError::RootfsTooLarge { actual: 9, limit: 8 }));
    let pull = OciMaterializationError::Pull { reference: "a:b".into(), source: "404".into() };
    assert_eq!(pull.message(), "pull a:b: 404");
    assert!(arg(pull));
    let io = |e| matches!(map_oci_materialization_error(e), CoreError::Io(_));
    assert!(io(OciMaterializationError::WorkDirectory("x".into())));
    assert!(io(OciMaterializationError::Runtime("x".into())));
    assert!(io(OciMaterializationError::SizeTask("x".into())));
    assert!(matches!(
        map_oci_materialization_error(OciMaterializationError::Storage("x".into())),
        CoreError::Storage(m) if m == "x"
    ));
    let large = OciMaterializationError::RootfsTooLarge { actual: 9, limit: 8 };
    assert_eq!(large.message(), "imported rootfs is 9 bytes, over the 8-byte limit");
}

#[test]
fn plain_directories_are_walked_and_missing_ones_made() {
    let mut way = Way::begin("/img", "/real/img", "usr/local/bin/husker-agent").unwrap();
    assert_eq!(way.next_directory().as_deref(), Some("/img/usr"));
    assert_eq!(way.advance(Found::Directory), WayStep::GoOn);
    assert_eq!(way.next_directory().as_deref(), Some("/img/usr/local"));
    assert_eq!(way.advance(Found::Missing), WayStep::Make);
    assert_eq!(way.next_directory().as_deref(), Some("/img/usr/local/bin"));
    assert_eq!(way.advance(Found::Other), WayStep::Replace);
    assert_eq!(way.next_directory(), None);
    assert_eq!(way.target(), "/img/usr/local/bin/husker-agent");
}

#[test]
fn links_out_of_the_image_are_replaced() {
    let mut way = Way::begin("/img", "/real/img", "sbin/init").unwrap();
    let out = Found::Link { resolved: Some("/real".into()), is_dir: true };
    assert_eq!(way.advance(out), WayStep::Replace);
    assert_eq!(way.target(), "/img/sbin/init");
    let mut way = Way::begin("/img", "/real/img", "sbin/init").unwrap();
    let neighbour = Found::Link { resolved: Some("/real/img2/sbin".into()), is_dir: true };
    assert_eq!(way.advance(neighbour), WayStep::Replace);
    let mut way = Way::begin("/img", "/real/img", "sbin/init").unwrap();
    assert_eq!(way.advance(Found::Link { resolved: None, is_dir: false }), WayStep::Replace);
}

#[test]
fn merged_usr_links_are_followed() {
    let mut way = Way::begin("/img", "/real/img", "sbin/init").unwrap();
    let inside = Found::Link { resolved: Some("/real/img/usr/sbin".into()), is_dir: true };
    assert_eq!(way.advance(inside), WayStep::GoOn);
    assert_eq!(way.target(), "/real/img/usr/sbin/init");
    // An absolute link means the image's root, not the host's.
    assert_eq!(link_candidate("/img", "/img", "/usr/sbin"), "/img/usr/sbin");
    assert_eq!(link_candidate("/img", "/img/a", "../b"), "/img/a/../b");
}

#[test]
fn climbing_paths_have_no_way() {
    assert!(Way::begin("/img", "/img", "../etc/passwd").is_none());
    assert!(Way::begin("/img", "/img", "a/../b").is_none());
    assert!(Way::begin("/img", "/img", "a/./b").is_some());
    assert!(is_within("/a/b", "/a/b/c"));
    assert!(is_within("/a/b", "/a/b"));
    assert!(!is_within("/a/b", "/a/bc"));
    assert!(!is_within("/a/b", "/a"));
}

#[test]
fn paths_are_taken_apart() {
    assert!(is_absolute("/a"));
    assert!(!is_absolute("a"));
    assert!(has_parent_segment("/a/../b"));
    assert!(!has_parent_segment("/a/..b"));
    assert_eq!(file_name("/a/b.tar.gz").as_deref(), Some("b.tar.gz"));
    assert_eq!(file_name("/a/..").as_deref(), None);
    assert_eq!(extension("/a/b.tar.gz").as_deref(), Some("gz"));
    assert_eq!(extension("/a/.bashrc"), None);
    assert_eq!(join("/a", "b"), "/a/b");
    assert_eq!(join("/a/", "b"), "/a/b");
    assert_eq!(join("/a", "/b"), "/b");
    assert!(same_path("/a//b/./c/", "/a/b/c"));
    assert!(!same_path("/a/b", "a/b"));
}

#[test]
fn images_boot_into_the_agent() {
    let entries = guest_runtime(b"AGENT", b"{}");
    assert!(matches!(
        entries[0],
        RuntimeEntry::File { path: "usr/local/bin/husker-agent", bytes: b"AGENT", mode: 0o755 }
    ));
    assert!(matches!(
        entries[1],
        RuntimeEntry::File { path: "etc/husker/oci-config.json", bytes: b"{}", mode: 0o644 }
    ));
    assert!(matches!(
        entries[2],
        RuntimeEntry::Link { path: "sbin/init", target: "/usr/local/bin/husker-agent" }
    ));
}
