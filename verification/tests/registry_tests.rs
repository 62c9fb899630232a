use initramfs_builder::registry::{
    classify_failure, progress_at, resolve_manifest, resolve_platform_manifest, select_platform,
    IndexEntry, ManifestDocument, Platform, Request, Resolution,
};
use initramfs_builder::{
    BuilderError, ImageManifest, ImageReference, LayerDescriptor, PullOptions, RegistryAuth,
    RegistryClient,
};

fn layer(digest: &str, size: u64) -> LayerDescriptor {
    LayerDescriptor {
        digest: digest.to_string(),
        size,
        media_type: "application/vnd.oci.image.layer.v1.tar+gzip".to_string(),
    }
}

fn entry(digest: &str, os: &str, arch: &str) -> IndexEntry {
    IndexEntry {
        digest: digest.to_string(),
        platform: Some(Platform { os: os.to_string(), architecture: arch.to_string() }),
    }
}

fn options(os: &str, arch: &str) -> PullOptions {
    PullOptions { platform_os: os.to_string(), platform_arch: arch.to_string() }
}

#[test]
fn test_parse_reference_simple() {
    let reference = RegistryClient::parse_reference("alpine:latest").unwrap();
    assert_eq!(reference.repository(), "library/alpine");
    assert_eq!(reference.tag(), Some("latest"));
}

#[test]
fn test_parse_reference_with_registry() {
    let reference = RegistryClient::parse_reference("ghcr.io/user/repo:v1").unwrap();
    assert_eq!(reference.registry(), "ghcr.io");
    assert_eq!(reference.repository(), "user/repo");
    assert_eq!(reference.tag(), Some("v1"));
}

#[test]
fn reference_without_tag_gets_latest() {
    let reference = RegistryClient::parse_reference("debian").unwrap();
    assert_eq!(reference.registry(), "docker.io");
    assert_eq!(reference.repository(), "library/debian");
    assert_eq!(reference.tag(), Some("latest"));
    assert_eq!(reference.digest(), None);
}

#[test]
fn reference_with_port() {
    let reference = RegistryClient::parse_reference("localhost:5000/app/web:1.2").unwrap();
    assert_eq!(reference.registry(), "localhost:5000");
    assert_eq!(reference.repository(), "app/web");
    assert_eq!(reference.tag(), Some("1.2"));
}

#[test]
fn digest_takes_precedence_over_tag() {
    let digest = format!("sha256:{}", "a".repeat(64));
    let by_digest =
        RegistryClient::parse_reference(&format!("ghcr.io/user/repo@{}", digest)).unwrap();
    assert_eq!(by_digest.digest(), Some(digest.as_str()));
    assert_eq!(by_digest.tag(), None);
    let both =
        RegistryClient::parse_reference(&format!("ghcr.io/user/repo:v1@{}", digest)).unwrap();
    assert_eq!(both.digest(), Some(digest.as_str()));
    assert_eq!(both.tag(), None);
    assert_eq!(both.repository(), "user/repo");
}

#[test]
fn from_parts_keeps_exactly_one_of_tag_and_digest() {
    let r = ImageReference::from_parts("r".to_string(), "p".to_string(), None, None);
    assert_eq!(r.tag(), Some("latest"));
    assert_eq!(r.digest(), None);
    let r = ImageReference::from_parts(
        "r".to_string(),
        "p".to_string(),
        Some("t".to_string()),
        Some("sha256:00".to_string()),
    );
    assert_eq!(r.tag(), None);
    assert_eq!(r.digest(), Some("sha256:00"));
    let r = ImageReference::from_parts("r".to_string(), "p".to_string(), Some("t".to_string()), None);
    assert_eq!(r.tag(), Some("t"));
    assert_eq!(r.registry(), "r");
    assert_eq!(r.repository(), "p");
}

#[test]
fn invalid_reference_is_refused_with_its_text() {
    for text in ["", "UPPER/Case:tag", "a b", "repo:", "repo@sha256:1234"] {
        match RegistryClient::parse_reference(text) {
            Err(BuilderError::InvalidImageRef(detail)) => assert_eq!(detail, text),
            other => panic!("{:?} should be refused, got {:?}", text, other),
        }
    }
}

#[test]
fn defaults_are_linux_amd64_anonymous() {
    let options = PullOptions::default();
    assert_eq!(options.platform_os, "linux");
    assert_eq!(options.platform_arch, "amd64");
    assert!(matches!(RegistryAuth::default(), RegistryAuth::Anonymous));
    let client = RegistryClient::new(RegistryAuth::Basic {
        username: "u".to_string(),
        password: "p".to_string(),
    });
    match client.auth() {
        RegistryAuth::Basic { username, password } => {
            assert_eq!(username, "u");
            assert_eq!(password, "p");
        }
        RegistryAuth::Anonymous => panic!("the credentials are gone"),
    }
}

#[test]
fn total_size_is_the_sum_of_the_layers() {
    let manifest = ImageManifest::new(
        "sha256:cfg".to_string(),
        vec![layer("sha256:a", 10), layer("sha256:b", 32), layer("sha256:c", 0)],
    )
    .unwrap();
    assert_eq!(manifest.total_size, 42);
    assert_eq!(manifest.config_digest, "sha256:cfg");
    let digests: Vec<&str> = manifest.layers.iter().map(|l| l.digest.as_str()).collect();
    assert_eq!(digests, vec!["sha256:a", "sha256:b", "sha256:c"]);
    assert_eq!(ImageManifest::new("c".to_string(), Vec::new()).unwrap().total_size, 0);
}

#[test]
fn total_size_that_does_not_fit_is_a_registry_failure() {
    let result = ImageManifest::new("c".to_string(), vec![layer("a", u64::MAX), layer("b", 1)]);
    assert!(matches!(result, Err(BuilderError::Registry(_))));
    let fits = ImageManifest::new("c".to_string(), vec![layer("a", u64::MAX - 1), layer("b", 1)]);
    assert_eq!(fits.unwrap().total_size, u64::MAX);
}

#[test]
fn first_matching_platform_is_selected() {
    let entries = vec![
        entry("sha256:1", "linux", "amd64"),
        IndexEntry { digest: "sha256:2".to_string(), platform: None },
        entry("sha256:3", "linux", "arm64"),
        entry("sha256:4", "linux", "arm64"),
        entry("sha256:5", "windows", "arm64"),
    ];
    assert_eq!(select_platform(&entries, &options("linux", "arm64")), Some(2));
    assert_eq!(select_platform(&entries, &options("linux", "amd64")), Some(0));
    assert_eq!(select_platform(&entries, &options("windows", "arm64")), Some(4));
    assert_eq!(select_platform(&entries, &options("linux", "nonesuch")), None);
    assert_eq!(select_platform(&Vec::new(), &options("linux", "amd64")), None);
}

#[test]
fn index_is_resolved_to_the_platform_digest() {
    let document = ManifestDocument::Index {
        entries: vec![entry("sha256:amd", "linux", "amd64"), entry("sha256:arm", "linux", "arm64")],
    };
    match resolve_manifest(document.clone(), &options("linux", "arm64")) {
        Ok(Resolution::FetchPlatform(digest)) => assert_eq!(digest, "sha256:arm"),
        other => panic!("unexpected {:?}", other),
    }
    match resolve_manifest(document, &options("linux", "nonesuch")) {
        Err(BuilderError::PlatformNotAvailable(detail)) => {
            assert_eq!(detail, "Platform linux/nonesuch not found in image index")
        }
        other => panic!("unexpected {:?}", other),
    }
}

#[test]
fn image_manifest_is_taken_as_it_is() {
    let document = ManifestDocument::Image {
        config_digest: "sha256:cfg".to_string(),
        layers: vec![layer("sha256:a", 5), layer("sha256:b", 7)],
    };
    match resolve_manifest(document.clone(), &options("linux", "nonesuch")) {
        Ok(Resolution::Manifest(manifest)) => {
            assert_eq!(manifest.total_size, 12);
            assert_eq!(manifest.layers.len(), 2);
            assert_eq!(manifest.layers[1].digest, "sha256:b");
        }
        other => panic!("unexpected {:?}", other),
    }
    let manifest = resolve_platform_manifest(document).unwrap();
    assert_eq!(manifest.config_digest, "sha256:cfg");
    assert_eq!(manifest.total_size, 12);
}

#[test]
fn index_behind_an_index_is_a_registry_failure() {
    let document = ManifestDocument::Index { entries: vec![entry("d", "linux", "amd64")] };
    assert!(matches!(
        resolve_platform_manifest(document),
        Err(BuilderError::Registry(_))
    ));
}

#[test]
fn failures_are_classified_by_status() {
    let e = classify_failure(Request::Manifest, Some(401), "no".to_string());
    assert_eq!(e, BuilderError::AuthFailed("no".to_string()));
    let e = classify_failure(Request::Blob, Some(401), "no".to_string());
    assert_eq!(e, BuilderError::AuthFailed("no".to_string()));
    let e = classify_failure(Request::Manifest, Some(404), "gone".to_string());
    assert_eq!(e, BuilderError::ImageNotFound("gone".to_string()));
    let e = classify_failure(Request::Blob, Some(404), "gone".to_string());
    assert_eq!(e, BuilderError::Registry("gone".to_string()));
    let e = classify_failure(Request::Manifest, Some(500), "oops".to_string());
    assert_eq!(e, BuilderError::Registry("oops".to_string()));
    let e = classify_failure(Request::Manifest, None, "timeout".to_string());
    assert_eq!(e, BuilderError::Registry("timeout".to_string()));
}

#[test]
fn progress_counts_layers_from_one() {
    let manifest =
        ImageManifest::new("c".to_string(), vec![layer("a", 1), layer("b", 2), layer("c", 3)])
            .unwrap();
    assert_eq!(progress_at(&manifest, 0), Some((1, 3)));
    assert_eq!(progress_at(&manifest, 2), Some((3, 3)));
    assert_eq!(progress_at(&manifest, 3), None);
}
