use husker_core::error::{
    already_exists_error, by_id_error, insert_error, lookup_error, require_free,
    seed_error_to_core, CloudInitErrorKind, CoreError, Resource, StateError,
};
use husker_core::images::{
    check_export, check_import, check_oci_import, exported, image_file, new_image, new_oci_image,
};
use husker_core::records::VmRecord;
use husker_core::requests::{
    CreateSecretRequest, CreateSnapshotRequest, CreateVolumeRequest, ExportImageRequest,
    ImportImageRequest, RestoreSnapshotRequest, RotateSecretRequest,
};
use husker_core::secrets::{
    check_secret_name, create_secret, create_secret_with_nonce, decrypt_secret, drawn_key,
    drawn_nonce,
    encrypt_secret, encrypt_with_nonce, generate_secret_key, load_secret_key, parse_secret_key, reveal_secret, rotate_secret,
    rotate_secret_with_nonce,
    secret_key_path, secret_to_metadata, settle_secret_key, KeyFile, KeyStored, SECRET_KEY_LEN,
    SECRET_NONCE_LEN,
};
use husker_core::settings::{HuskerCore, Platform, StorageLayout};
use husker_core::snapshots::{
    check_restore_name, check_snapshot_name, check_snapshot_source, new_snapshot, restore_request,
    rootfs_file,
};
use husker_core::time::Timestamp;
use husker_core::volumes::{check_volume_name, check_volume_unused, new_volume};

fn t(secs: i64) -> Timestamp {
    Timestamp::new(secs, 0).unwrap()
}

fn storage() -> StorageLayout {
    StorageLayout {
        data_dir: "/data".into(),
        state_dir: "/state".into(),
        images_dir: "/data/images".into(),
        vms_dir: "/state/vms".into(),
        kernels_dir: "/data/kernels".into(),
        volumes_dir: "/state/volumes".into(),
        sentinel_path: "/data/.mounted".into(),
    }
}

fn argument(e: CoreError) -> String {
    match e {
        CoreError::InvalidArgument(m) => m,
        other => panic!("expected InvalidArgument, got {other:?}"),
    }
}

#[test]
fn secret_encryption_is_real_and_authenticated() {
    // Proves the at-rest encryption is not a no-op and is authenticated.
    let key = [7u8; SECRET_KEY_LEN];
    let plaintext = b"super-secret-value";

    let (ciphertext, nonce) = encrypt_secret(&key, plaintext).unwrap();
    assert_ne!(
        ciphertext.as_slice(),
        plaintext.as_slice(),
        "ciphertext must differ from plaintext"
    );
    assert!(
        ciphertext.len() > plaintext.len(),
        "ciphertext must carry the GCM auth tag"
    );
    assert_eq!(nonce.len(), SECRET_NONCE_LEN);

    // Correct key + nonce round-trips.
    assert_eq!(
        decrypt_secret(&key, &nonce, &ciphertext).unwrap(),
        plaintext
    );

    // Wrong key fails.
    assert!(decrypt_secret(&[8u8; SECRET_KEY_LEN], &nonce, &ciphertext).is_err());

    // Tampered ciphertext fails GCM authentication.
    let mut tampered = ciphertext.clone();
    tampered[0] ^= 0xff;
    assert!(decrypt_secret(&key, &nonce, &tampered).is_err());

    // Tampered nonce fails.
    let mut bad_nonce = nonce.clone();
    bad_nonce[0] ^= 0xff;
    assert!(decrypt_secret(&key, &bad_nonce, &ciphertext).is_err());

    // Fresh random nonce per encryption -> same plaintext encrypts differently.
    let (ciphertext2, nonce2) = encrypt_secret(&key, plaintext).unwrap();
    assert_ne!(nonce, nonce2, "nonce must be random per encryption");
    assert_ne!(ciphertext, ciphertext2);
}

#[test]
fn sealing_matches_the_published_vector() {
    // AES-256-GCM with an all-zero key and nonce, on sixteen zero bytes.
    let key = [0; SECRET_KEY_LEN];
    let (sealed, nonce) = encrypt_with_nonce(&key, &[0; 16], Some([0; SECRET_NONCE_LEN])).unwrap();
    assert_eq!(nonce, [0; SECRET_NONCE_LEN]);
    let expected: [u8; 32] = [
        0xce, 0xa7, 0x40, 0x3d, 0x4d, 0x60, 0x6b, 0x6e, 0x07, 0x4e, 0xc5, 0xd3, 0xba, 0xf3, 0x9d,
        0x18, 0xd0, 0xd1, 0xc8, 0xa7, 0x99, 0x99, 0x6b, 0xf0, 0x26, 0x5b, 0x98, 0xb5, 0xd4, 0x8a,
        0xb9, 0x19,
    ];
    assert_eq!(sealed, expected);
}

#[test]
fn secrets_are_stored_rotated_and_revealed() {
    let key = generate_secret_key().unwrap();
    assert_ne!(key, generate_secret_key().unwrap());
    let req = CreateSecretRequest { name: "token".into(), value: "p\u{e4}ss".into() };
    assert!(check_secret_name(&req).is_ok());
    let secret = create_secret(&key, req, 4, t(10)).unwrap();
    assert_eq!((secret.id, secret.name.as_str()), (4, "token"));
    assert_ne!(secret.ciphertext, "p\u{e4}ss".as_bytes());
    let rotated =
        rotate_secret(&key, secret, &RotateSecretRequest { value: "other".into() }, t(20)).unwrap();
    let revealed = reveal_secret(&key, rotated).unwrap();
    assert_eq!(revealed.name, "token");
    assert_eq!(revealed.value, "other");
    assert_eq!(revealed.updated_at, t(20));
    let bad = CreateSecretRequest { name: "a b".into(), value: "".into() };
    assert!(matches!(check_secret_name(&bad), Err(CoreError::InvalidArgument(_))));
}

#[test]
fn without_a_nonce_nothing_is_sealed() {
    let key = [1u8; SECRET_KEY_LEN];
    let crypto = |e: CoreError| match e {
        CoreError::SecretCrypto(m) => m,
        other => panic!("expected SecretCrypto, got {other:?}"),
    };
    assert_eq!(
        crypto(encrypt_with_nonce(&key, b"x", None).unwrap_err()),
        "failed to generate secret nonce"
    );
    let req = |name: &str| CreateSecretRequest { name: name.into(), value: "v".into() };
    assert!(create_secret_with_nonce(&key, req("token"), None, 4, t(10)).is_err());
    // A bad name is found first.
    assert!(matches!(
        create_secret_with_nonce(&key, req("a b"), None, 4, t(10)),
        Err(CoreError::InvalidArgument(_))
    ));
    let secret = create_secret_with_nonce(&key, req("token"), Some([9; 12]), 4, t(10)).unwrap();
    assert_eq!(secret.nonce, [9; 12]);
    let rotated = rotate_secret_with_nonce(
        &key,
        secret,
        &RotateSecretRequest { value: "w".into() },
        Some([8; 12]),
        t(11),
    )
    .unwrap();
    assert_eq!((rotated.nonce.as_slice(), rotated.created_at), ([8u8; 12].as_slice(), t(10)));
    assert_eq!(reveal_secret(&key, rotated).unwrap().value, "w");
    assert_eq!(
        crypto(drawn_key(None).unwrap_err()),
        "failed to generate secret key"
    );
    assert_eq!(drawn_key(Some(vec![5; 32])).unwrap(), [5; 32]);
    let bytes: Vec<u8> = (1..=12).collect();
    assert_eq!(drawn_nonce(Some(bytes.clone())).unwrap().to_vec(), bytes);
    assert_eq!(drawn_nonce(None), None);
}

#[test]
fn metadata_holds_no_value() {
    let key = [1u8; SECRET_KEY_LEN];
    let req = CreateSecretRequest { name: "token".into(), value: "v".into() };
    let meta = secret_to_metadata(create_secret(&key, req, 4, t(10)).unwrap());
    assert_eq!((meta.id, meta.name.as_str()), (4, "token"));
    assert_eq!((meta.created_at, meta.updated_at), (t(10), t(10)));
}

#[test]
fn secrets_that_are_no_text_are_not_revealed() {
    let key = [1u8; SECRET_KEY_LEN];
    let (ciphertext, nonce) = encrypt_secret(&key, &[0xff, 0xfe]).unwrap();
    let req = CreateSecretRequest { name: "token".into(), value: "v".into() };
    let mut secret = create_secret(&key, req, 4, t(10)).unwrap();
    secret.ciphertext = ciphertext;
    secret.nonce = nonce;
    assert!(reveal_secret(&key, secret).is_err());
}

#[test]
fn key_files_are_read_or_made_once() {
    assert_eq!(secret_key_path("/data"), "/data/keys/secrets.key");
    assert_eq!(parse_secret_key("/k", &vec![3; 32]).unwrap(), [3; 32]);
    assert_eq!(
        argument(parse_secret_key("/k", &vec![3; 31]).unwrap_err()),
        "invalid secret key length in /k: expected 32, got 31"
    );
    assert_eq!(load_secret_key("/k", KeyFile::Read(vec![3; 32])).unwrap(), Some([3; 32]));
    assert_eq!(load_secret_key("/k", KeyFile::Missing).unwrap(), None);
    assert!(load_secret_key("/k", KeyFile::Unreadable("denied".into())).is_err());
    assert_eq!(settle_secret_key([5; 32], KeyStored::Written).unwrap(), Some([5; 32]));
    assert_eq!(settle_secret_key([5; 32], KeyStored::Exists).unwrap(), None);
    assert!(matches!(
        settle_secret_key([5; 32], KeyStored::Failed("full".into())),
        Err(CoreError::Storage(m)) if m == "full"
    ));
}

#[test]
fn invalid_ssh_key_seed_error_is_invalid_argument() {
    let e = seed_error_to_core(CloudInitErrorKind::InvalidSshKey, "bad".into());
    assert!(matches!(e, CoreError::InvalidArgument(_)));
    let other = seed_error_to_core(CloudInitErrorKind::EmptyAgent, "no agent".into());
    assert!(matches!(other, CoreError::CloudInit(CloudInitErrorKind::EmptyAgent, _)));
}

#[test]
fn create_volume_duplicate_name_rejected() {
    let req = CreateVolumeRequest { name: "data".into(), size_bytes: 1024 * 1024 * 1024 };
    assert!(check_volume_name(&req).is_ok());
    assert!(matches!(
        require_free(Resource::Volume, "data", Ok(())),
        Err(CoreError::VolumeAlreadyExists(n)) if n == "data"
    ));
    assert!(require_free(
        Resource::Volume,
        "data",
        Err(StateError::NotFoundByName(Resource::Volume))
    )
    .is_ok());
    let err = insert_error(Resource::Volume, StateError::AlreadyExists(Resource::Volume, "data".into()));
    assert!(
        matches!(err, CoreError::VolumeAlreadyExists(_)),
        "expected VolumeAlreadyExists, got {err:?}"
    );
}

#[test]
fn delete_volume_refused_while_attached() {
    assert!(matches!(
        check_volume_unused("mydata", Some("vm-with-vol")),
        Err(CoreError::VolumeAttached { volume, vm }) if volume == "mydata" && vm == "vm-with-vol"
    ));
    assert!(check_volume_unused("free-vol", None).is_ok());
}

#[test]
fn volumes_live_in_their_directory() {
    let req = CreateVolumeRequest { name: "data".into(), size_bytes: 512 };
    let v = new_volume(&storage(), req, 3, t(1));
    assert_eq!(v.file_path, "/state/volumes/data.img");
    assert_eq!((v.id, v.name.as_str(), v.size_bytes, v.created_at), (3, "data", 512, t(1)));
    let bad = CreateVolumeRequest { name: "../x".into(), size_bytes: 512 };
    assert!(check_volume_name(&bad).is_err());
}

fn import(name: &str, source: &str) -> ImportImageRequest {
    ImportImageRequest { name: name.into(), source_path: source.into(), format: None, kind: None }
}

#[test]
fn images_are_imported_into_the_catalog() {
    let req = import("deb", "/src/debian.ext4");
    assert_eq!(check_import(&req, false).unwrap(), "rootfs");
    let rec = new_image(&storage(), req, "rootfs".into(), 99, 1, t(2));
    assert_eq!(rec.file_path, "/data/images/catalog/deb.ext4");
    assert_eq!(rec.format, "ext4");
    assert_eq!(rec.source_path, "/src/debian.ext4");
    assert_eq!((rec.size_bytes, rec.boot_init), (99, None));
    assert_eq!(image_file(&storage(), "deb", "/src/x.qcow2"), "/data/images/catalog/deb.qcow2");
    assert!(check_import(&import("deb", "/src/debian.ext4"), true).is_err());
    assert!(check_import(&import("deb", "src/debian.ext4"), false).is_err());
    assert!(check_import(&import("d eb", "/src/debian.ext4"), false).is_err());
    let bogus = ImportImageRequest { kind: Some("bogus".into()), ..import("deb", "/src/d.ext4") };
    assert!(check_import(&bogus, false).is_err());
}

#[test]
fn oci_images_boot_through_the_agent() {
    let core = HuskerCore::new(storage(), "husker0".into(), vec![], "/run".into())
        .with_embedded_agent(vec![1]);
    assert!(check_oci_import(&core, Platform::Linux, "py").is_ok());
    assert!(check_oci_import(&core, Platform::Macos, "py").is_err());
    assert!(check_oci_import(&core.with_embedded_agent(vec![]), Platform::Linux, "py").is_err());
    let rec = new_oci_image(&storage(), "py", "oci://python:3", 5, 8, t(3));
    assert_eq!(rec.source_path, "oci://python:3");
    assert_eq!(rec.file_path, "/data/images/catalog/py.ext4");
    assert_eq!(rec.boot_init.as_deref(), Some("/usr/local/bin/husker-agent"));
    assert_eq!((rec.format.as_str(), rec.kind.as_str()), ("ext4", "rootfs"));
    let to = ExportImageRequest { destination_path: "/out/py.ext4".into() };
    assert!(check_export(&to, false).is_ok());
    assert!(check_export(&to, true).is_err());
    let done = exported(&rec, to, 7);
    assert_eq!((done.name.as_str(), done.destination_path.as_str(), done.size_bytes), ("py", "/out/py.ext4", 7));
}

fn vm(state: &str) -> VmRecord {
    VmRecord {
        id: 1,
        name: "web".into(),
        state: state.into(),
        pid: None,
        vcpu_count: 1,
        mem_size_mib: 128,
        vsock_cid: 3,
        tap_device: None,
        host_ip: None,
        guest_ip: None,
        kernel_path: "/k".into(),
        rootfs_path: "/r".into(),
        created_at: t(0),
        updated_at: t(0),
        userdata: None,
        userdata_status: None,
        userdata_env: None,
        service_id: None,
        service_ordinal: None,
        vmm: "firecracker".into(),
        boot_mode: "direct".into(),
        balloon: false,
        volume: None,
        network: "nat".into(),
        last_activity_at: t(0),
        suspended_at: None,
        idle_timeout_secs: None,
        suspend_ttl_secs: None,
        auto_resume: true,
        forked_from: None,
    }
}

#[test]
fn snapshots_are_taken_of_stopped_vms() {
    assert!(check_snapshot_source(&vm("stopped")).is_ok());
    assert!(matches!(
        check_snapshot_source(&vm("running")),
        Err(CoreError::InvalidState { name, actual, expected })
            if name == "web" && actual == "running" && expected == "stopped"
    ));
    let req = CreateSnapshotRequest { name: "s1".into(), vm: "web".into() };
    assert!(check_snapshot_name(&req).is_ok());
    let snap = new_snapshot(&storage(), req, 6, t(4));
    assert_eq!((snap.id, snap.source_vm_name.as_str(), snap.created_at), (6, "web", t(4)));
    assert!(snap.file_path.starts_with("/data/images/"), "{}", snap.file_path);
    assert!(snap.file_path.contains("s1"), "{}", snap.file_path);
    assert_eq!(rootfs_file(&storage(), "web"), "/state/vms/web/rootfs.ext4");
    let restore = RestoreSnapshotRequest {
        name: "web2".into(),
        kernel_path: "/k".into(),
        vcpu_count: Some(2),
        mem_size_mib: None,
        initrd_path: None,
        userdata: None,
        env: vec![("A".into(), "1".into())],
    };
    assert!(check_restore_name(&restore).is_ok());
    let req = restore_request(&snap.file_path, restore);
    assert_eq!(req.rootfs_path, Some(snap.file_path));
    assert_eq!(req.name, "web2");
    assert_eq!(req.env, vec![("A".to_string(), "1".to_string())]);
    assert!(req.cloud_image.is_none());
}

#[test]
fn missing_and_duplicate_things_are_named() {
    let kinds = [
        Resource::Vm,
        Resource::HostGroup,
        Resource::Service,
        Resource::Pool,
        Resource::Snapshot,
        Resource::Image,
        Resource::Volume,
        Resource::Secret,
    ];
    for kind in kinds {
        let missing = lookup_error(kind, "x", StateError::NotFoundByName(kind)).message();
        assert!(missing.contains("x"), "{missing}");
        assert_eq!(missing, by_id_error(kind, "x", StateError::NotFound(kind)).message());
        let taken = already_exists_error(kind, "x".into()).message();
        assert_eq!(
            taken,
            insert_error(kind, StateError::AlreadyExists(kind, "x".into())).message()
        );
        assert_ne!(missing, taken);
        // Any other trouble of the store is passed on as it is.
        assert!(matches!(
            lookup_error(kind, "x", StateError::PortAlreadyForwarded(9)),
            CoreError::State(StateError::PortAlreadyForwarded(9))
        ));
    }
    assert_eq!(CoreError::VmNotFound("web".into()).message(), "VM not found: web");
}

#[test]
fn sealed_texts_are_a_tag_longer_and_open_again() {
    let key = [7u8; SECRET_KEY_LEN];
    for plaintext in [&b""[..], &b"x"[..], &[0u8; 100][..]] {
        let (sealed, nonce) =
            encrypt_with_nonce(&key, plaintext, Some([1; SECRET_NONCE_LEN])).unwrap();
        assert_eq!(sealed.len(), plaintext.len() + 16);
        assert_eq!(decrypt_secret(&key, &nonce, &sealed).unwrap(), plaintext);
    }
    let (sealed, nonce) = encrypt_with_nonce(&key, b"x", Some([1; SECRET_NONCE_LEN])).unwrap();
    assert!(matches!(
        decrypt_secret(&key, &nonce[1..], &sealed),
        Err(CoreError::SecretCrypto(_))
    ));
    assert!(decrypt_secret(&key, &nonce, &sealed[..16]).is_err());
}

#[test]
fn altered_tags_and_nonces_are_refused_byte_by_byte() {
    let key = [7u8; SECRET_KEY_LEN];
    let plaintext = b"super-secret-value";
    let (sealed, nonce) =
        encrypt_with_nonce(&key, plaintext, Some([1; SECRET_NONCE_LEN])).unwrap();
    for i in 0..sealed.len() {
        let mut altered = sealed.clone();
        altered[i] ^= 1;
        assert!(matches!(
            decrypt_secret(&key, &nonce, &altered),
            Err(CoreError::SecretCrypto(m)) if m == "failed to decrypt secret"
        ));
    }
    for i in 0..nonce.len() {
        let mut other = nonce.clone();
        other[i] ^= 1;
        assert!(matches!(
            decrypt_secret(&key, &other, &sealed),
            Err(CoreError::SecretCrypto(_))
        ));
    }
    // What opens is what sealing the plaintext gives.
    let opened = decrypt_secret(&key, &nonce, &sealed).unwrap();
    let again = encrypt_with_nonce(&key, &opened, Some([1; SECRET_NONCE_LEN])).unwrap();
    assert_eq!(again, (sealed, nonce));
}
