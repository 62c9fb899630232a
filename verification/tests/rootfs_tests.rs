use initramfs_builder::cpio::archive_path_of;
use initramfs_builder::rootfs::RootfsBuilder;
use initramfs_builder::{BuilderError, LayerDescriptor, RegistryAuth, RegistryClient};

#[test]
fn root_itself_has_no_archive_path() {
    assert_eq!(archive_path_of("/tmp/stage", "/tmp/stage"), None);
    assert_eq!(archive_path_of("/tmp/stage", "/tmp/stage/"), None);
    assert_eq!(archive_path_of("/tmp/stage/", "/tmp/stage"), None);
    assert_eq!(archive_path_of("", ""), None);
    assert_eq!(archive_path_of("/tmp/stage", ""), None);
    assert_eq!(archive_path_of("stage/", ""), None);
}

#[test]
fn archive_paths_are_relative_to_the_root() {
    assert_eq!(
        archive_path_of("/tmp/stage", "/tmp/stage/etc/passwd"),
        Some("etc/passwd".to_string())
    );
    assert_eq!(archive_path_of("/tmp/stage/", "/tmp/stage/etc"), Some("etc".to_string()));
    assert_eq!(archive_path_of("/", "/init"), Some("init".to_string()));
    assert_eq!(archive_path_of("stage", "stage/é/ü.txt"), Some("é/ü.txt".to_string()));
    assert_eq!(archive_path_of("/tmp/stage", "/tmp/stage//a"), Some("a".to_string()));
}

#[test]
fn path_outside_the_root_is_kept() {
    assert_eq!(
        archive_path_of("/tmp/stage", "/tmp/stagecoach/x"),
        Some("/tmp/stagecoach/x".to_string())
    );
    assert_eq!(archive_path_of("/tmp/stage", "/tmp"), Some("/tmp".to_string()));
    assert_eq!(archive_path_of("/tmp/stage", "/opt/stage/x"), Some("/opt/stage/x".to_string()));
}

#[test]
fn rootfs_recipe_keeps_platform_and_patterns() {
    let builder = RootfsBuilder::new(RegistryClient::new(RegistryAuth::Anonymous));
    assert_eq!(builder.options().platform_os, "linux");
    assert_eq!(builder.options().platform_arch, "amd64");
    assert_eq!(builder.rootfs_path(), None);
    assert!(matches!(builder.client().auth(), RegistryAuth::Anonymous));
    let builder = builder
        .platform("linux", "arm64")
        .exclude(&["usr/share/doc/*"])
        .exclude(&["*.pyc", "var/cache/*"]);
    assert_eq!(builder.options().platform_arch, "arm64");
    let extractor = builder.extractor().unwrap();
    assert!(extractor.should_exclude(b"usr/share/doc/readme"));
    assert!(extractor.should_exclude(b"lib/python/a.pyc"));
    assert!(extractor.should_exclude(b"var/cache/apt/archives"));
    assert!(!extractor.should_exclude(b"usr/bin/python"));
    let builder = builder.staged("/tmp/.tmpAbCd");
    assert_eq!(builder.rootfs_path(), Some("/tmp/.tmpAbCd"));
    assert_eq!(builder.options().platform_arch, "arm64");
}

#[test]
fn rootfs_recipe_refuses_what_is_no_pattern_or_reference() {
    let builder =
        RootfsBuilder::new(RegistryClient::new(RegistryAuth::Anonymous)).exclude(&["a/**b"]);
    assert!(matches!(builder.extractor(), Err(BuilderError::LayerExtraction(_))));
    assert!(matches!(builder.reference("Not A Ref"), Err(BuilderError::InvalidImageRef(_))));
    let reference = builder.reference("debian:stable-slim").unwrap();
    assert_eq!(reference.repository(), "library/debian");
    assert_eq!(reference.tag(), Some("stable-slim"));
}

#[test]
fn listed_size_is_read_as_unsigned() {
    let layer = LayerDescriptor::from_listed("sha256:a".to_string(), 42, "tar".to_string());
    assert_eq!(layer.size, 42);
    assert_eq!(layer.digest, "sha256:a");
    assert_eq!(layer.media_type, "tar");
    let layer = LayerDescriptor::from_listed("d".to_string(), -1, "m".to_string());
    assert_eq!(layer.size, u64::MAX);
    let layer = LayerDescriptor::from_listed("d".to_string(), i64::MIN, "m".to_string());
    assert_eq!(layer.size, 1u64 << 63);
    let layer = LayerDescriptor::from_listed("d".to_string(), i64::MAX, "m".to_string());
    assert_eq!(layer.size, i64::MAX as u64);
}
