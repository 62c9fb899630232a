//! The recipe of a root filesystem: which image it is made from and what is
//! left out of it. Fetching and unpacking are done by the caller, with the
//! reference and the extractor that this recipe gives.

use crate::error::BuilderError;
use crate::layer::{all_valid, LayerExtractor};
use crate::registry::{parse_reference_spec, ImageReference, PullOptions, RegistryClient};
use crate::text::{optional_text, slice_texts, texts};
use vstd::prelude::*;
use vstd::string::StringExecFns;

verus! {

/// Builds the root filesystem of an image in a staging directory.
pub struct RootfsBuilder {
    client: RegistryClient,
    options: PullOptions,
    exclude_patterns: Vec<String>,
    staged_at: Option<String>,
}

impl RootfsBuilder {
    /// The client that the builder fetches with.
    pub closed spec fn spec_client(&self) -> RegistryClient {
        self.client
    }

    /// The operating system of the platform.
    pub closed spec fn platform_os(&self) -> Seq<char> {
        self.options.platform_os@
    }

    /// The architecture of the platform.
    pub closed spec fn platform_arch(&self) -> Seq<char> {
        self.options.platform_arch@
    }

    /// The patterns of the paths that are left out.
    pub closed spec fn patterns(&self) -> Seq<Seq<char>> {
        texts(self.exclude_patterns@)
    }

    /// Where the root filesystem was staged, once it was.
    pub closed spec fn spec_rootfs_path(&self) -> Option<Seq<char>> {
        optional_text(self.staged_at)
    }

    /// A builder for linux on amd64 that leaves nothing out and has staged
    /// nothing yet.
    pub fn new(client: RegistryClient) -> (builder: Self)
        ensures
            builder.spec_client() == client,
            builder.platform_os() == "linux"@,
            builder.platform_arch() == "amd64"@,
            builder.patterns() == Seq::<Seq<char>>::empty(),
            builder.spec_rootfs_path() is None,
    {
        let builder = RootfsBuilder {
            client,
            options: PullOptions::default(),
            exclude_patterns: Vec::new(),
            staged_at: None,
        };
        assert(builder.patterns() =~= Seq::<Seq<char>>::empty());
        builder
    }

    /// Chooses the platform.
    pub fn platform(self, os: &str, arch: &str) -> (builder: Self)
        ensures
            builder.platform_os() == os@,
            builder.platform_arch() == arch@,
            builder.spec_client() == self.spec_client(),
            builder.patterns() == self.patterns(),
            builder.spec_rootfs_path() == self.spec_rootfs_path(),
    {
        let mut builder = self;
        builder.options.platform_os = String::from_str(os);
        builder.options.platform_arch = String::from_str(arch);
        builder
    }

    /// Adds patterns of paths to leave out, behind those that are there.
    pub fn exclude(self, patterns: &[&str]) -> (builder: Self)
        ensures
            builder.patterns() == self.patterns() + slice_texts(patterns@),
            builder.platform_os() == self.platform_os(),
            builder.platform_arch() == self.platform_arch(),
            builder.spec_client() == self.spec_client(),
            builder.spec_rootfs_path() == self.spec_rootfs_path(),
    {
        let mut builder = self;
        let mut i: usize = 0;
        assert(self.patterns() + slice_texts(patterns@.take(0)) =~= self.patterns());
        while i < patterns.len()
            invariant
                i <= patterns.len(),
                builder.patterns() == self.patterns() + slice_texts(patterns@.take(i as int)),
                builder.options == self.options,
                builder.client == self.client,
                builder.staged_at == self.staged_at,
            decreases patterns.len() - i,
        {
            let ghost before = builder.exclude_patterns@;
            builder.exclude_patterns.push(String::from_str(patterns[i]));
            proof {
                assert(texts(builder.exclude_patterns@) =~= texts(before).push(patterns@[i as int]@));
                assert(slice_texts(patterns@.take(i + 1)) =~= slice_texts(
                    patterns@.take(i as int),
                ).push(patterns@[i as int]@));
                assert(builder.patterns() =~= self.patterns() + slice_texts(patterns@.take(i + 1)));
            }
            i += 1;
        }
        assert(patterns@.take(i as int) =~= patterns@);
        builder
    }

    /// The client that the builder fetches with.
    pub fn client(&self) -> (client: &RegistryClient)
        ensures
            *client == self.spec_client(),
    {
        &self.client
    }

    /// The platform whose image is fetched.
    pub fn options(&self) -> (options: &PullOptions)
        ensures
            options.platform_os@ == self.platform_os(),
            options.platform_arch@ == self.platform_arch(),
    {
        &self.options
    }

    /// The reference that `image` reads as: the first step of a build, and
    /// where a text that is no reference is refused.
    pub fn reference(&self, image: &str) -> (result: Result<ImageReference, BuilderError>)
        ensures
            parse_reference_spec(image@, result),
    {
        RegistryClient::parse_reference(image)
    }

    /// The extractor for the layers of the image, with the patterns of this
    /// builder. A text among them that is no pattern is refused before
    /// anything is extracted.
    pub fn extractor(&self) -> (result: Result<LayerExtractor, BuilderError>)
        ensures
            all_valid(self.patterns()) ==> (result matches Ok(extractor) && extractor.patterns()
                == self.patterns()),
            !all_valid(self.patterns()) ==> (result matches Err(BuilderError::LayerExtraction(_))),
    {
        let mut given: Vec<&str> = Vec::new();
        let mut i: usize = 0;
        assert(slice_texts(given@) =~= texts(self.exclude_patterns@.take(0)));
        while i < self.exclude_patterns.len()
            invariant
                i <= self.exclude_patterns.len(),
                slice_texts(given@) == texts(self.exclude_patterns@.take(i as int)),
            decreases self.exclude_patterns.len() - i,
        {
            let ghost before = given@;
            let pattern = self.exclude_patterns[i].as_str();
            given.push(pattern);
            proof {
                assert(slice_texts(given@) =~= slice_texts(before).push(pattern@));
                assert(texts(self.exclude_patterns@.take(i + 1)) =~= texts(
                    self.exclude_patterns@.take(i as int),
                ).push(pattern@));
            }
            i += 1;
        }
        assert(self.exclude_patterns@.take(i as int) =~= self.exclude_patterns@);
        let fresh = LayerExtractor::new();
        assert(fresh.patterns() + self.patterns() =~= self.patterns());
        fresh.with_excludes(given.as_slice())
    }

    /// Notes where the root filesystem was staged.
    pub fn staged(self, path: &str) -> (builder: Self)
        ensures
            builder.spec_rootfs_path() == Some(path@),
            builder.platform_os() == self.platform_os(),
            builder.platform_arch() == self.platform_arch(),
            builder.spec_client() == self.spec_client(),
            builder.patterns() == self.patterns(),
    {
        let mut builder = self;
        builder.staged_at = Some(String::from_str(path));
        builder
    }

    /// Where the root filesystem was staged, once it was.
    pub fn rootfs_path(&self) -> (path: Option<&str>)
        ensures
            match path {
                Some(p) => self.spec_rootfs_path() == Some(p@),
                None => self.spec_rootfs_path() is None,
            },
    {
        match &self.staged_at {
            Some(p) => Some(p.as_str()),
            None => None,
        }
    }
}

} // verus!
