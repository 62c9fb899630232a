use initramfs_builder::layer::{
    extract_action, whiteout_action, EntryKind, ExtractAction, LayerEntry, LayerPlan,
    WhiteoutAction,
};
use initramfs_builder::paths::{basename_of, join_paths, parent_of, rooted_of, staged_of};
use initramfs_builder::{BuilderError, LayerExtractor};
use std::collections::BTreeSet;
use std::io::Write;

/// One entry of a synthetic layer.
enum Item<'a> {
    File(&'a str, &'a [u8]),
    Dir(&'a str),
    Symlink(&'a str, &'a str),
    HardLink(&'a str, &'a str),
}

/// A gzipped tar with these entries, in this order.
fn layer(items: &[Item]) -> Vec<u8> {
    let encoder = flate2::write::GzEncoder::new(Vec::new(), flate2::Compression::default());
    let mut builder = tar::Builder::new(encoder);
    for item in items {
        let mut header = tar::Header::new_gnu();
        header.set_mode(0o644);
        header.set_mtime(1_000);
        match item {
            Item::File(path, data) => {
                header.set_entry_type(tar::EntryType::Regular);
                header.set_size(data.len() as u64);
                builder.append_data(&mut header, path, *data).unwrap();
            }
            Item::Dir(path) => {
                header.set_entry_type(tar::EntryType::Directory);
                header.set_mode(0o755);
                header.set_size(0);
                builder.append_data(&mut header, path, &[][..]).unwrap();
            }
            Item::Symlink(path, target) => {
                header.set_entry_type(tar::EntryType::Symlink);
                header.set_size(0);
                builder.append_link(&mut header, path, target).unwrap();
            }
            Item::HardLink(path, target) => {
                header.set_entry_type(tar::EntryType::Link);
                header.set_size(0);
                builder.append_link(&mut header, path, target).unwrap();
            }
        }
    }
    builder.into_inner().unwrap().finish().unwrap()
}

fn below(path: &[u8], dir: &[u8]) -> bool {
    if dir.is_empty() {
        !path.is_empty()
    } else {
        path.len() > dir.len() + 1 && path.starts_with(dir) && path[dir.len()] == b'/'
    }
}

fn add_with_parents(tree: &mut BTreeSet<Vec<u8>>, path: &[u8], with_path: bool) {
    for (i, byte) in path.iter().enumerate() {
        if *byte == b'/' && i > 0 {
            tree.insert(path[..i].to_vec());
        }
    }
    if with_path {
        tree.insert(path.to_vec());
    }
}

/// Carries a plan out on a set of paths: whiteouts first, then the entries.
fn apply(tree: &mut BTreeSet<Vec<u8>>, plan: &LayerPlan) {
    for action in &plan.whiteouts {
        match action {
            WhiteoutAction::Keep => {}
            WhiteoutAction::ClearDirectory(dir) => tree.retain(|p| !below(p, dir)),
            WhiteoutAction::Remove(target) => tree.retain(|p| p != target && !below(p, target)),
        }
    }
    for action in &plan.extracts {
        match action {
            ExtractAction::Skip => {}
            ExtractAction::Unpack { path } => add_with_parents(tree, path, true),
            ExtractAction::Symlink { path, .. } => add_with_parents(tree, path, true),
            ExtractAction::HardLink { path, source } => {
                let there = tree.contains(source);
                add_with_parents(tree, path, there);
            }
            ExtractAction::ParentOnly { path } => add_with_parents(tree, path, false),
        }
    }
}

fn paths(tree: &BTreeSet<Vec<u8>>) -> Vec<String> {
    tree.iter().map(|p| String::from_utf8_lossy(p).into_owned()).collect()
}

#[test]
fn layer_test_exclude_patterns() {
    let extractor = LayerExtractor::new()
        .with_excludes(&["/usr/share/doc/*", "*.pyc"])
        .unwrap();

    assert!(extractor.should_exclude(b"/usr/share/doc/readme.txt"));
    assert!(extractor.should_exclude(b"module.pyc"));
    assert!(!extractor.should_exclude(b"/usr/bin/python"));
}

#[test]
fn extractor_without_patterns_excludes_nothing() {
    let extractor = LayerExtractor::default();
    assert!(!extractor.should_exclude(b"usr/share/doc/readme.txt"));
    assert!(!extractor.should_exclude(b""));
}

#[test]
fn patterns_add_up() {
    let extractor = LayerExtractor::new()
        .with_excludes(&["usr/share/doc/*"])
        .unwrap()
        .with_excludes(&["var/cache/*", "*.bak"])
        .unwrap();
    assert!(extractor.should_exclude(b"usr/share/doc/a/b"));
    assert!(extractor.should_exclude(b"var/cache/apt"));
    assert!(extractor.should_exclude(b"etc/passwd.bak"));
    assert!(!extractor.should_exclude(b"usr/share/docs"));
    assert!(!extractor.should_exclude(b"etc/passwd"));
}

#[test]
fn paths_are_matched_as_text() {
    let extractor = LayerExtractor::new().with_excludes(&["cache/?.bin", "*.pyc"]).unwrap();
    assert!(extractor.should_exclude(b"cache/\xff.bin"));
    assert!(extractor.should_exclude("cache/é.bin".as_bytes()));
    assert!(extractor.should_exclude(b"lib/\xfe\xff/m.pyc"));
    assert!(!extractor.should_exclude(b"cache/\xff\xff\xff.bin"));
    assert!(!extractor.should_exclude(b"cache/ab.bin"));
}

#[test]
fn invalid_pattern_fails_at_once() {
    match LayerExtractor::new().with_excludes(&["*.pyc", "a/**b"]) {
        Err(BuilderError::LayerExtraction(detail)) => {
            assert_eq!(detail, "Invalid glob pattern: a/**b")
        }
        other => panic!("unexpected {:?}", other),
    }
    assert!(LayerExtractor::new().with_excludes(&["[a-"]).is_err());
    assert!(LayerExtractor::new().with_excludes(&[]).is_ok());
}

#[test]
fn path_is_taken_apart_at_the_last_slash() {
    assert_eq!(basename_of(b"usr/bin/env"), b"env");
    assert_eq!(parent_of(b"usr/bin/env"), b"usr/bin");
    assert_eq!(basename_of(b"usr/bin/"), b"bin");
    assert_eq!(parent_of(b"usr/bin/"), b"usr");
    assert_eq!(basename_of(b"env"), b"env");
    assert_eq!(parent_of(b"env"), b"");
    assert_eq!(basename_of(b"/env"), b"env");
    assert_eq!(parent_of(b"/env"), b"");
    assert_eq!(basename_of(b""), b"");
    assert_eq!(basename_of(b"///"), b"");
    assert_eq!(parent_of(b"///"), b"");
    assert_eq!(basename_of(b"./a/.wh.b"), b".wh.b");
    assert_eq!(parent_of(b"./a/.wh.b"), b"./a");
}

#[test]
fn paths_are_joined_and_rooted() {
    assert_eq!(join_paths(b"usr/bin", b"env"), b"usr/bin/env");
    assert_eq!(join_paths(b"", b"env"), b"env");
    assert_eq!(join_paths(b"usr", b""), b"usr/");
    assert_eq!(rooted_of(b"/usr/bin"), b"usr/bin");
    assert_eq!(rooted_of(b"//usr"), b"usr");
    assert_eq!(rooted_of(b"usr/"), b"usr/");
    assert_eq!(rooted_of(b"/"), b"");
    assert_eq!(rooted_of(b""), b"");
    assert_eq!(staged_of(b"/usr/bin/"), b"usr/bin");
    assert_eq!(staged_of(b"usr/bin"), b"usr/bin");
    assert_eq!(staged_of(b"//"), b"");
    assert_eq!(staged_of(b"a//b//"), b"a//b");
}

#[test]
fn whiteout_marker_removes_its_sibling() {
    assert_eq!(
        whiteout_action(b"etc/.wh.passwd"),
        WhiteoutAction::Remove(b"etc/passwd".to_vec())
    );
    assert_eq!(whiteout_action(b".wh.tmp"), WhiteoutAction::Remove(b"tmp".to_vec()));
    assert_eq!(
        whiteout_action(b"/var/lib/.wh.dpkg/"),
        WhiteoutAction::Remove(b"var/lib/dpkg".to_vec())
    );
    assert_eq!(
        whiteout_action(b"a/.wh..wh.other"),
        WhiteoutAction::Remove(b"a/.wh.other".to_vec())
    );
}

#[test]
fn opaque_marker_clears_its_directory() {
    assert_eq!(
        whiteout_action(b"var/cache/.wh..wh..opq"),
        WhiteoutAction::ClearDirectory(b"var/cache".to_vec())
    );
    assert_eq!(
        whiteout_action(b".wh..wh..opq"),
        WhiteoutAction::ClearDirectory(Vec::new())
    );
    assert_eq!(
        whiteout_action(b"/opt/.wh..wh..opq"),
        WhiteoutAction::ClearDirectory(b"opt".to_vec())
    );
}

#[test]
fn plain_entries_take_nothing_away() {
    for path in [&b"etc/passwd"[..], b"etc/", b"", b"a/wh.b", b".wh/x", b"a/.wh", b"x.wh.y"] {
        assert_eq!(whiteout_action(path), WhiteoutAction::Keep, "{:?}", path);
    }
}

#[test]
fn entries_are_dispatched_by_kind() {
    let file = LayerEntry { path: b"/usr/bin/env".to_vec(), kind: EntryKind::Other, link_name: None };
    assert_eq!(
        extract_action(&file, false),
        ExtractAction::Unpack { path: b"usr/bin/env".to_vec() }
    );
    assert_eq!(extract_action(&file, true), ExtractAction::Skip);
    let hard = LayerEntry {
        path: b"bin/sh".to_vec(),
        kind: EntryKind::HardLink,
        link_name: Some(b"/bin/busybox".to_vec()),
    };
    assert_eq!(
        extract_action(&hard, false),
        ExtractAction::HardLink { path: b"bin/sh".to_vec(), source: b"bin/busybox".to_vec() }
    );
    let soft = LayerEntry {
        path: b"lib64".to_vec(),
        kind: EntryKind::Symlink,
        link_name: Some(b"/usr/lib64".to_vec()),
    };
    assert_eq!(
        extract_action(&soft, false),
        ExtractAction::Symlink { path: b"lib64".to_vec(), target: b"/usr/lib64".to_vec() }
    );
    let dangling = LayerEntry { path: b"a/b".to_vec(), kind: EntryKind::Symlink, link_name: None };
    assert_eq!(
        extract_action(&dangling, false),
        ExtractAction::ParentOnly { path: b"a/b".to_vec() }
    );
    let nameless = LayerEntry { path: b"a/c".to_vec(), kind: EntryKind::HardLink, link_name: None };
    assert_eq!(
        extract_action(&nameless, false),
        ExtractAction::ParentOnly { path: b"a/c".to_vec() }
    );
}

#[test]
fn markers_are_never_extracted() {
    for path in [&b"etc/.wh.passwd"[..], b".wh..wh..opq", b"var/.wh..wh..opq", b"a/.wh."] {
        let marker = LayerEntry { path: path.to_vec(), kind: EntryKind::Other, link_name: None };
        assert_eq!(extract_action(&marker, false), ExtractAction::Skip);
    }
}

#[test]
fn layer_is_listed_in_archive_order() {
    let data = layer(&[
        Item::Dir("etc/"),
        Item::File("etc/passwd", b"root:x:0:0"),
        Item::Symlink("bin", "usr/bin"),
        Item::HardLink("usr/bin/sh", "usr/bin/busybox"),
        Item::File("etc/.wh.shadow", b""),
    ]);
    let plan = LayerExtractor::new().extract_layer(&data).unwrap();
    assert_eq!(
        plan.extracts,
        vec![
            ExtractAction::Unpack { path: b"etc".to_vec() },
            ExtractAction::Unpack { path: b"etc/passwd".to_vec() },
            ExtractAction::Symlink { path: b"bin".to_vec(), target: b"usr/bin".to_vec() },
            ExtractAction::HardLink {
                path: b"usr/bin/sh".to_vec(),
                source: b"usr/bin/busybox".to_vec()
            },
            ExtractAction::Skip,
        ]
    );
    assert_eq!(
        plan.whiteouts,
        vec![
            WhiteoutAction::Keep,
            WhiteoutAction::Keep,
            WhiteoutAction::Keep,
            WhiteoutAction::Keep,
            WhiteoutAction::Remove(b"etc/shadow".to_vec()),
        ]
    );
}

#[test]
fn broken_layer_is_a_failed_extraction() {
    let extractor = LayerExtractor::new();
    assert!(matches!(
        extractor.extract_layer(b"this is no gzip stream"),
        Err(BuilderError::LayerExtraction(_))
    ));
    let mut truncated = layer(&[Item::File("a", b"0123456789")]);
    truncated.truncate(truncated.len() / 2);
    assert!(matches!(
        extractor.extract_layer(&truncated),
        Err(BuilderError::LayerExtraction(_))
    ));
    let mut encoder = flate2::write::GzEncoder::new(Vec::new(), flate2::Compression::default());
    encoder.write_all(&[7u8; 700]).unwrap();
    let no_tar = encoder.finish().unwrap();
    assert!(matches!(
        extractor.extract_layer(&no_tar),
        Err(BuilderError::LayerExtraction(_))
    ));
    let good = layer(&[Item::File("a", b"x")]);
    assert!(matches!(
        extractor.extract_all_layers(&[good.clone(), truncated, good]),
        Err(BuilderError::LayerExtraction(_))
    ));
}

#[test]
fn whiteout_in_upper_layer_hides_the_lower_file() {
    let lower = layer(&[
        Item::Dir("etc/"),
        Item::File("etc/passwd", b"root"),
        Item::File("etc/shadow", b"secret"),
        Item::Dir("etc/ssl/"),
        Item::File("etc/ssl/cert.pem", b"cert"),
    ]);
    let upper = layer(&[
        Item::File("etc/.wh.shadow", b""),
        Item::File("etc/.wh.ssl", b""),
        Item::File("etc/hosts", b"127.0.0.1"),
    ]);
    let plans = LayerExtractor::new().extract_all_layers(&[lower, upper]).unwrap();
    assert_eq!(plans.len(), 2);
    let mut tree = BTreeSet::new();
    for plan in &plans {
        apply(&mut tree, plan);
    }
    assert_eq!(paths(&tree), vec!["etc", "etc/hosts", "etc/passwd"]);
}

#[test]
fn whiteout_applies_before_the_layer_own_entries() {
    let lower = layer(&[Item::File("app/config", b"old")]);
    let upper = layer(&[Item::File("app/config", b"new"), Item::File("app/.wh.config", b"")]);
    let plans = LayerExtractor::new().extract_all_layers(&[lower, upper]).unwrap();
    let mut tree = BTreeSet::new();
    for plan in &plans {
        apply(&mut tree, plan);
    }
    assert_eq!(paths(&tree), vec!["app", "app/config"]);
}

#[test]
fn opaque_marker_keeps_only_the_upper_layer_descendants() {
    let lower = layer(&[
        Item::Dir("var/cache/"),
        Item::File("var/cache/old.db", b"old"),
        Item::File("var/cache/apt/pkg", b"pkg"),
        Item::File("var/log/syslog", b"log"),
    ]);
    let upper = layer(&[
        Item::File("var/cache/.wh..wh..opq", b""),
        Item::File("var/cache/new.db", b"new"),
    ]);
    let plans = LayerExtractor::new().extract_all_layers(&[lower, upper]).unwrap();
    let mut tree = BTreeSet::new();
    for plan in &plans {
        apply(&mut tree, plan);
    }
    assert_eq!(
        paths(&tree),
        vec!["var", "var/cache", "var/cache/new.db", "var/log", "var/log/syslog"]
    );
}

#[test]
fn excluded_paths_are_skipped_in_the_plan() {
    let data = layer(&[
        Item::File("usr/share/doc/readme", b"doc"),
        Item::File("usr/share/doc/deep/er", b"doc"),
        Item::File("usr/share/man/man1/ls.1", b"man"),
        Item::File("usr/bin/ls", b"elf"),
    ]);
    let full = LayerExtractor::new().extract_layer(&data).unwrap();
    let trimmed = LayerExtractor::new()
        .with_excludes(&["usr/share/doc/*"])
        .unwrap()
        .extract_layer(&data)
        .unwrap();
    let kept = |plan: &LayerPlan| plan.extracts.iter().filter(|a| **a != ExtractAction::Skip).count();
    assert_eq!(kept(&full), 4);
    assert_eq!(kept(&trimmed), 2);
    assert_eq!(
        trimmed.extracts,
        vec![
            ExtractAction::Skip,
            ExtractAction::Skip,
            ExtractAction::Unpack { path: b"usr/share/man/man1/ls.1".to_vec() },
            ExtractAction::Unpack { path: b"usr/bin/ls".to_vec() },
        ]
    );
}

#[test]
fn same_layers_give_the_same_plans() {
    let data = layer(&[Item::Dir("a/"), Item::File("a/b", b"b"), Item::File("a/.wh.c", b"")]);
    let extractor = LayerExtractor::new().with_excludes(&["*.tmp"]).unwrap();
    let first = extractor.extract_layer(&data).unwrap();
    let second = extractor.extract_layer(&data).unwrap();
    assert_eq!(first.whiteouts, second.whiteouts);
    assert_eq!(first.extracts, second.extracts);
}
