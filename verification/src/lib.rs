//! Turns the flattened root filesystem of a container image into a bootable
//! initramfs: a newc CPIO archive, optionally compressed.
//!
//! The modules hold the rules of that pipeline as verified functions over plain
//! values; reading the network and the disk is left to the caller.

pub mod builder;
pub mod builder_laws;
pub mod compress;
pub mod cpio;
pub mod cpio_laws;
pub mod cpio_reader;
pub mod error;
pub mod hex;
pub mod layer;
pub mod layer_laws;
pub mod paths;
pub mod registry;
pub mod rootfs;
pub mod text;
pub mod tui;

pub use builder::{BuildResult, InitramfsBuilder, InjectFile};
pub use compress::{compress_archive, Compression};
pub use cpio::CpioArchive;
pub use error::BuilderError;
pub use layer::LayerExtractor;
pub use registry::{
    ImageManifest, ImageReference, LayerDescriptor, PullOptions, RegistryAuth, RegistryClient,
};
