use initramfs_builder::builder::{
    default_init_script, parse_inject, staged_path_of, StagingStep, EXECUTABLE_MODE,
};
use initramfs_builder::cpio::{HostMetadata, NodeContent};
use initramfs_builder::{
    BuilderError, Compression, CpioArchive, InitramfsBuilder, InjectFile, RegistryAuth,
};
use std::io::Read;

fn small_archive() -> CpioArchive {
    let mut archive = CpioArchive::new();
    let dir = HostMetadata { mode: 0o040755, uid: 0, gid: 0, nlink: 2, mtime: 0 };
    let file = HostMetadata { mode: 0o100755, uid: 0, gid: 0, nlink: 1, mtime: 0 };
    archive.add_path("bin", &dir, NodeContent::Other);
    archive.add_path("bin/sh", &file, NodeContent::File(vec![b'x'; 4000]));
    archive.add_path("init", &file, NodeContent::File(default_init_script().as_bytes().to_vec()));
    archive
}

#[test]
fn inject_file_is_plain_until_made_executable() {
    let file = InjectFile::new("./tool", "/usr/bin/tool");
    assert_eq!(file.src, "./tool");
    assert_eq!(file.dest, "/usr/bin/tool");
    assert!(!file.executable);
    let file = file.executable();
    assert_eq!(file.src, "./tool");
    assert_eq!(file.dest, "/usr/bin/tool");
    assert!(file.executable);
}

#[test]
fn new_recipe_has_the_defaults() {
    let builder = InitramfsBuilder::new();
    assert!(matches!(builder.image_name(), Err(BuilderError::InvalidImageRef(_))));
    let options = builder.pull_options();
    assert_eq!(options.platform_os, "linux");
    assert_eq!(options.platform_arch, "amd64");
    assert!(matches!(builder.registry_auth(), RegistryAuth::Anonymous));
    assert!(builder.excluded().is_empty());
    let (_, summary) = builder.package(&CpioArchive::new()).unwrap();
    assert_eq!(summary.compression, Compression::Gzip);
    assert_eq!(summary.injected_files, 0);
    assert!(!summary.has_custom_init);
    let plan = InitramfsBuilder::default().staging_plan();
    assert_eq!(plan.len(), 1);
}

#[test]
fn recipe_keeps_what_it_is_given() {
    let builder = InitramfsBuilder::new()
        .image("python:3.11-alpine")
        .compression(Compression::Zstd)
        .exclude(&["/usr/share/doc/*", "/var/cache/*"])
        .exclude(&["*.pyc"])
        .platform("linux", "arm64")
        .auth(RegistryAuth::Basic { username: "me".to_string(), password: "pw".to_string() });
    assert_eq!(builder.image_name().unwrap(), "python:3.11-alpine");
    assert_eq!(builder.pull_options().platform_arch, "arm64");
    assert_eq!(builder.pull_options().platform_os, "linux");
    assert_eq!(
        builder.excluded(),
        &vec!["/usr/share/doc/*".to_string(), "/var/cache/*".to_string(), "*.pyc".to_string()]
    );
    match builder.registry_auth() {
        RegistryAuth::Basic { username, password } => {
            assert_eq!(username, "me");
            assert_eq!(password, "pw");
        }
        RegistryAuth::Anonymous => panic!("the credentials are gone"),
    }
    let builder = builder.image("debian:stable-slim");
    assert_eq!(builder.image_name().unwrap(), "debian:stable-slim");
}

#[test]
fn one_leading_slash_is_dropped_from_a_destination() {
    assert_eq!(staged_path_of("/usr/bin/custom-tool"), "usr/bin/custom-tool");
    assert_eq!(staged_path_of("usr/bin/custom-tool"), "usr/bin/custom-tool");
    assert_eq!(staged_path_of("//x"), "/x");
    assert_eq!(staged_path_of("/"), "");
    assert_eq!(staged_path_of(""), "");
    assert_eq!(staged_path_of("/é/ü"), "é/ü");
}

#[test]
fn plan_runs_injections_in_order_then_init() {
    let plan = InitramfsBuilder::new()
        .image("debian:stable-slim")
        .inject("./tool", "/usr/bin/custom-tool")
        .inject_file(InjectFile::new("./motd", "etc/motd"))
        .staging_plan();
    assert_eq!(plan.len(), 3);
    match &plan[0] {
        StagingStep::Copy { src, dest, mode } => {
            assert_eq!(src, "./tool");
            assert_eq!(dest, "usr/bin/custom-tool");
            assert_eq!(*mode, Some(0o755));
            assert!(mode.unwrap() & 0o100 != 0);
        }
        other => panic!("unexpected {:?}", other),
    }
    match &plan[1] {
        StagingStep::Copy { src, dest, mode } => {
            assert_eq!(src, "./motd");
            assert_eq!(dest, "etc/motd");
            assert_eq!(*mode, None);
        }
        other => panic!("unexpected {:?}", other),
    }
    match &plan[2] {
        StagingStep::Write { dest, contents, mode } => {
            assert_eq!(dest, "init");
            assert_eq!(contents, default_init_script().as_bytes());
            assert_eq!(*mode, Some(EXECUTABLE_MODE));
        }
        other => panic!("unexpected {:?}", other),
    }
}

#[test]
fn custom_init_is_copied_and_made_executable() {
    let plan = InitramfsBuilder::new()
        .image("debian:stable-slim")
        .init_script("./init.sh")
        .inject("./evil", "/init")
        .staging_plan();
    assert_eq!(plan.len(), 2);
    match plan.last().unwrap() {
        StagingStep::Copy { src, dest, mode } => {
            assert_eq!(src, "./init.sh");
            assert_eq!(dest, "init");
            assert_eq!(*mode, Some(0o755));
        }
        other => panic!("unexpected {:?}", other),
    }
    let inits = plan
        .iter()
        .filter(|step| match step {
            StagingStep::Copy { dest, .. } => dest == "init",
            StagingStep::Write { dest, .. } => dest == "init",
        })
        .count();
    assert_eq!(inits, 2);
}

#[test]
fn default_init_mounts_and_hands_over() {
    let script = default_init_script();
    assert!(script.starts_with("#!/bin/sh\n"));
    let lines: Vec<&str> = script.lines().collect();
    assert_eq!(lines[1], "mount -t proc proc /proc 2>/dev/null");
    assert_eq!(lines[2], "mount -t sysfs sysfs /sys 2>/dev/null");
    assert_eq!(lines[3], "mount -t devtmpfs devtmpfs /dev 2>/dev/null");
    assert_eq!(
        lines[5],
        "for cmd in /docker-entrypoint.sh /entrypoint.sh /usr/bin/entrypoint.sh; do"
    );
    assert_eq!(lines[6], "    [ -x \"$cmd\" ] && exec \"$cmd\"");
    assert_eq!(lines[7], "done");
    assert_eq!(lines[9], "exec /bin/sh");
    assert!(script.ends_with("exec /bin/sh\n"));
    assert_eq!(script.len(), 257);
}

#[test]
fn package_reports_sizes_and_recipe() {
    let archive = small_archive();
    let mut cpio = Vec::new();
    archive.write_to(&mut cpio).unwrap();

    let builder = InitramfsBuilder::new()
        .image("debian:stable-slim")
        .compression(Compression::Gzip)
        .inject("./tool", "/usr/bin/my-tool")
        .init_script("./init.sh");
    let (bytes, summary) = builder.package(&archive).unwrap();
    assert_eq!(summary.entries, 3);
    assert_eq!(summary.uncompressed_size, cpio.len() as u64);
    assert_eq!(summary.compressed_size, bytes.len() as u64);
    assert!(summary.compressed_size < summary.uncompressed_size);
    assert_eq!(summary.compression, Compression::Gzip);
    assert_eq!(summary.injected_files, 1);
    assert!(summary.has_custom_init);
    let mut decoded = Vec::new();
    flate2::read::GzDecoder::new(&bytes[..]).read_to_end(&mut decoded).unwrap();
    assert_eq!(decoded, cpio);
}

#[test]
fn every_mode_decompresses_to_the_same_archive() {
    let archive = small_archive();
    let mut cpio = Vec::new();
    archive.write_to(&mut cpio).unwrap();

    let (raw, raw_summary) =
        InitramfsBuilder::new().compression(Compression::Raw).package(&archive).unwrap();
    assert_eq!(raw, cpio);
    assert_eq!(raw_summary.compressed_size, raw_summary.uncompressed_size);
    assert_eq!(raw_summary.compression, Compression::Raw);

    let (zst, zst_summary) =
        InitramfsBuilder::new().compression(Compression::Zstd).package(&archive).unwrap();
    assert_eq!(zstd::decode_all(&zst[..]).unwrap(), cpio);
    assert!(zst_summary.compressed_size < zst_summary.uncompressed_size);

    let (gz, gz_summary) =
        InitramfsBuilder::new().compression(Compression::Gzip).package(&archive).unwrap();
    let mut decoded = Vec::new();
    flate2::read::GzDecoder::new(&gz[..]).read_to_end(&mut decoded).unwrap();
    assert_eq!(decoded, cpio);
    assert!(raw.len() > gz.len());
    assert!(raw.len() > zst.len());
    assert_eq!(gz_summary.entries, zst_summary.entries);
}

#[test]
fn archive_that_cannot_be_written_is_not_packaged() {
    let mut archive = small_archive();
    let mut entry = initramfs_builder::cpio::CpioEntry::from_host(
        "dev/console",
        &HostMetadata { mode: 0o020600, uid: 0, gid: 0, nlink: 1, mtime: 0 },
        NodeContent::Other,
    );
    entry.rdev_major = 5;
    archive.add_entry(entry);
    for mode in [Compression::Gzip, Compression::Zstd, Compression::Raw] {
        let result = InitramfsBuilder::new().compression(mode).package(&archive);
        assert!(matches!(result, Err(BuilderError::CpioGeneration(_))));
    }
}

#[test]
fn inject_argument_is_split_at_the_first_colon() {
    assert_eq!(
        parse_inject("/path/on/host:/path/in/initramfs"),
        Ok(("/path/on/host".to_string(), "/path/in/initramfs".to_string()))
    );
    assert_eq!(parse_inject("a:b:c"), Ok(("a".to_string(), "b:c".to_string())));
    assert_eq!(parse_inject(":"), Ok((String::new(), String::new())));
    assert_eq!(parse_inject("é:ü"), Ok(("é".to_string(), "ü".to_string())));
    assert_eq!(
        parse_inject("nocolon"),
        Err("Invalid inject format 'nocolon'. Expected format: /path/on/host:/path/in/initramfs"
            .to_string())
    );
    assert!(parse_inject("").is_err());
}
