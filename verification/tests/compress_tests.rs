use initramfs_builder::compress::ZSTD_LEVEL;
use initramfs_builder::{compress_archive, BuilderError, Compression};
use std::io::Read;

#[test]
fn test_compression_from_str() {
    assert_eq!("gzip".parse::<Compression>().unwrap(), Compression::Gzip);
    assert_eq!("gz".parse::<Compression>().unwrap(), Compression::Gzip);
    assert_eq!("zstd".parse::<Compression>().unwrap(), Compression::Zstd);
    assert_eq!("zst".parse::<Compression>().unwrap(), Compression::Zstd);
    assert_eq!("none".parse::<Compression>().unwrap(), Compression::Raw);
    assert_eq!("raw".parse::<Compression>().unwrap(), Compression::Raw);
    assert!("invalid".parse::<Compression>().is_err());
}

#[test]
fn test_compression_display() {
    assert_eq!(Compression::Gzip.to_string(), "gzip");
    assert_eq!(Compression::Zstd.to_string(), "zstd");
    assert_eq!(Compression::Raw.to_string(), "none");
}

#[test]
fn test_compression_default() {
    assert_eq!(Compression::default(), Compression::Gzip);
}

#[test]
fn names_are_read_in_any_case() {
    assert_eq!(Compression::parse("GZIP"), Ok(Compression::Gzip));
    assert_eq!(Compression::parse("Zst"), Ok(Compression::Zstd));
    assert_eq!(Compression::parse("RAW"), Ok(Compression::Raw));
    assert_eq!(Compression::from_name("GZIP"), None);
    assert_eq!(Compression::from_name("gz"), Some(Compression::Gzip));
}

#[test]
fn unknown_name_is_quoted_in_the_message() {
    assert_eq!(
        Compression::parse("Brotli"),
        Err("Unknown compression: Brotli".to_string())
    );
    assert_eq!(Compression::parse(""), Err("Unknown compression: ".to_string()));
}

#[test]
fn name_of_each_mode_reads_back() {
    for mode in [Compression::Gzip, Compression::Zstd, Compression::Raw] {
        assert_eq!(Compression::parse(&mode.to_string()), Ok(mode));
    }
}

#[test]
fn gzip_round_trip() {
    let data: Vec<u8> = b"hello world ".repeat(100).to_vec();
    let compressed = compress_archive(&data, Compression::Gzip).unwrap();
    assert!(!compressed.is_empty());
    assert!(compressed.len() < data.len());
    assert_eq!(&compressed[..3], &[0x1f, 0x8b, 8]);
    let mut decoder = flate2::read::GzDecoder::new(&compressed[..]);
    let mut decompressed = Vec::new();
    decoder.read_to_end(&mut decompressed).unwrap();
    assert_eq!(decompressed, data);
}

#[test]
fn zstd_round_trip() {
    let data = b"hello world hello world hello world";
    let compressed = compress_archive(data, Compression::Zstd).unwrap();
    assert!(
        compressed.len() < data.len(),
        "Compressed size should be smaller"
    );
    assert_eq!(&compressed[..4], &[0x28, 0xb5, 0x2f, 0xfd]);
    let decompressed = zstd::decode_all(&compressed[..]).unwrap();
    assert_eq!(decompressed, data);
}

#[test]
fn zstd_runs_at_level_three() {
    assert_eq!(ZSTD_LEVEL, 3);
    let data: Vec<u8> = (0..20_000u32).map(|i| (i % 251) as u8).collect();
    let compressed = compress_archive(&data, Compression::Zstd).unwrap();
    let reference = zstd::encode_all(&data[..], 3).unwrap();
    assert_eq!(zstd::decode_all(&compressed[..]).unwrap(), data);
    assert_eq!(zstd::decode_all(&reference[..]).unwrap(), data);
}

#[test]
fn raw_mode_copies_the_bytes() {
    let data = b"hello world";
    let out = compress_archive(data, Compression::Raw).unwrap();
    assert_eq!(out.len(), data.len());
    assert_eq!(out, data);
    assert_eq!(compress_archive(&[], Compression::Raw).unwrap(), Vec::<u8>::new());
}

#[test]
fn compressing_twice_gives_the_same_bytes() {
    let data: Vec<u8> = b"initramfs ".repeat(500).to_vec();
    for mode in [Compression::Gzip, Compression::Zstd, Compression::Raw] {
        assert_eq!(
            compress_archive(&data, mode).unwrap(),
            compress_archive(&data, mode).unwrap()
        );
    }
}

#[test]
fn error_messages_carry_the_heading_of_their_kind() {
    assert_eq!(
        BuilderError::Compression("boom".to_string()).message(),
        "Compression failed: boom"
    );
    assert_eq!(
        BuilderError::InvalidImageRef("x y".to_string()).message(),
        "Failed to parse image reference: x y"
    );
    assert_eq!(BuilderError::Registry("r".to_string()).message(), "Registry error: r");
    assert_eq!(
        BuilderError::AuthFailed("a".to_string()).message(),
        "Authentication failed: a"
    );
    assert_eq!(
        BuilderError::ImageNotFound("i".to_string()).message(),
        "Image not found: i"
    );
    assert_eq!(
        BuilderError::PlatformNotAvailable("p".to_string()).message(),
        "Platform not available: p"
    );
    assert_eq!(
        BuilderError::LayerExtraction("l".to_string()).message(),
        "Layer extraction failed: l"
    );
    assert_eq!(
        BuilderError::CpioGeneration("c".to_string()).message(),
        "CPIO generation failed: c"
    );
    assert_eq!(BuilderError::Io("io".to_string()).message(), "IO error: io");
    assert_eq!(BuilderError::Json("j".to_string()).message(), "JSON parsing error: j");
}
