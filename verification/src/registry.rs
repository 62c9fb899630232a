//! What the registry client decides: how an image reference reads, which
//! manifest of an index is taken, what a manifest amounts to, and how a
//! failure is reported. The requests themselves are made by the caller.

use crate::error::BuilderError;
use crate::text::{optional_text, str_equal};
use vstd::prelude::*;
use vstd::string::StringExecFns;

verus! {

/// The tag that a reference without tag and digest gets.
pub open spec fn default_tag() -> Seq<char> {
    "latest"@
}

/// How the client identifies itself to the registry.
#[derive(Debug, Clone)]
pub enum RegistryAuth {
    Anonymous,
    Basic { username: String, password: String },
}

impl Default for RegistryAuth {
    fn default() -> (auth: Self)
        ensures
            auth is Anonymous,
    {
        RegistryAuth::Anonymous
    }
}

/// The platform whose image is wanted.
#[derive(Debug, Clone)]
pub struct PullOptions {
    pub platform_os: String,
    pub platform_arch: String,
}

impl Default for PullOptions {
    fn default() -> (options: Self)
        ensures
            options.platform_os@ == "linux"@,
            options.platform_arch@ == "amd64"@,
    {
        PullOptions {
            platform_os: String::from_str("linux"),
            platform_arch: String::from_str("amd64"),
        }
    }
}

/// A layer blob: its digest, its size in bytes, and its media type.
#[derive(Debug, Clone)]
pub struct LayerDescriptor {
    pub digest: String,
    pub size: u64,
    pub media_type: String,
}

/// A size as a registry's document gives it, a signed number, read as a count
/// of bytes: a negative one is taken for the unsigned number with the same
/// 64 bits.
pub open spec fn unsigned_size(size: i64) -> u64 {
    if size < 0 {
        (size + 0x1_0000_0000_0000_0000) as u64
    } else {
        size as u64
    }
}

impl LayerDescriptor {
    /// The descriptor of a layer as a manifest lists it.
    pub fn from_listed(digest: String, size: i64, media_type: String) -> (layer: Self)
        ensures
            layer.digest == digest,
            layer.size == unsigned_size(size),
            layer.media_type == media_type,
    {
        let size: u64 = if size < 0 {
            let below: u64 = (-(size + 1)) as u64;
            u64::MAX - below
        } else {
            size as u64
        };
        LayerDescriptor { digest, size, media_type }
    }
}

/// The sizes of the layers, added up.
pub open spec fn total_size(layers: Seq<LayerDescriptor>) -> nat
    decreases layers.len(),
{
    if layers.len() == 0 {
        0
    } else {
        total_size(layers.drop_last()) + layers.last().size as nat
    }
}

/// An image: its configuration, its layers from the base upwards, and the sum
/// of their sizes.
#[derive(Debug, Clone)]
pub struct ImageManifest {
    pub config_digest: String,
    pub layers: Vec<LayerDescriptor>,
    pub total_size: u64,
}

impl ImageManifest {
    /// Whether the total is the sum of the layers' sizes.
    pub open spec fn well_formed(&self) -> bool {
        self.total_size as nat == total_size(self.layers@)
    }

    /// The manifest of an image with this configuration and these layers, in
    /// this order. It is refused as a registry failure where the sizes add up
    /// to more than 64 bits hold.
    pub fn new(config_digest: String, layers: Vec<LayerDescriptor>) -> (result: Result<
        ImageManifest,
        BuilderError,
    >)
        ensures
            total_size(layers@) <= u64::MAX ==> result is Ok,
            result matches Ok(manifest) ==> manifest.config_digest == config_digest
                && manifest.layers == layers && manifest.well_formed(),
            result matches Err(error) ==> error is Registry && total_size(layers@) > u64::MAX
                && error.detail() == "the sizes of the layers do not add up in 64 bits"@,
    {
        let mut total: u64 = 0;
        let mut i: usize = 0;
        assert(layers@.take(0) =~= Seq::<LayerDescriptor>::empty());
        while i < layers.len()
            invariant
                i <= layers.len(),
                total as nat == total_size(layers@.take(i as int)),
            decreases layers.len() - i,
        {
            let size = layers[i].size;
            proof {
                let next = layers@.take(i + 1);
                assert(next.drop_last() =~= layers@.take(i as int));
                assert(next.last() == layers@[i as int]);
                lemma_total_size_grows(layers@, i + 1);
            }
            if size > u64::MAX - total {
                return Err(
                    BuilderError::Registry(
                        String::from_str("the sizes of the layers do not add up in 64 bits"),
                    ),
                );
            }
            total = total + size;
            i += 1;
        }
        assert(layers@.take(i as int) =~= layers@);
        Ok(ImageManifest { config_digest, layers, total_size: total })
    }
}

/// The sum over the first layers is at most the sum over all of them.
pub proof fn lemma_total_size_grows(layers: Seq<LayerDescriptor>, k: int)
    requires
        0 <= k <= layers.len(),
    ensures
        total_size(layers.take(k)) <= total_size(layers),
    decreases layers.len(),
{
    if k == layers.len() {
        assert(layers.take(k) =~= layers);
    } else {
        lemma_total_size_grows(layers.drop_last(), k);
        assert(layers.drop_last().take(k) =~= layers.take(k));
    }
}

/// The platform that an entry of an index is for.
#[derive(Debug, Clone)]
pub struct Platform {
    pub os: String,
    pub architecture: String,
}

/// One entry of an image index: the digest of a manifest, and its platform
/// where the index gives one.
#[derive(Debug, Clone)]
pub struct IndexEntry {
    pub digest: String,
    pub platform: Option<Platform>,
}

/// Whether an entry is for the platform asked for. One without a platform is
/// for none.
pub open spec fn entry_matches(entry: IndexEntry, options: PullOptions) -> bool {
    entry.platform matches Some(platform) && platform.os@ == options.platform_os@
        && platform.architecture@ == options.platform_arch@
}

/// Whether `i` is the first entry for the platform asked for.
pub open spec fn is_first_match(entries: Seq<IndexEntry>, options: PullOptions, i: int) -> bool {
    &&& 0 <= i < entries.len()
    &&& entry_matches(entries[i], options)
    &&& forall|j: int| 0 <= j < i ==> !entry_matches(#[trigger] entries[j], options)
}

/// Whether no entry is for the platform asked for.
pub open spec fn no_match(entries: Seq<IndexEntry>, options: PullOptions) -> bool {
    forall|j: int| 0 <= j < entries.len() ==> !entry_matches(#[trigger] entries[j], options)
}

/// The index of the first entry whose platform is the one asked for.
pub fn select_platform(entries: &Vec<IndexEntry>, options: &PullOptions) -> (found: Option<usize>)
    ensures
        match found {
            Some(i) => is_first_match(entries@, *options, i as int),
            None => no_match(entries@, *options),
        },
{
    let mut i: usize = 0;
    while i < entries.len()
        invariant
            i <= entries.len(),
            forall|j: int| 0 <= j < i ==> !entry_matches(#[trigger] entries@[j], *options),
        decreases entries.len() - i,
    {
        let hit = match &entries[i].platform {
            Some(platform) => str_equal(platform.os.as_str(), options.platform_os.as_str())
                && str_equal(platform.architecture.as_str(), options.platform_arch.as_str()),
            None => false,
        };
        if hit {
            return Some(i);
        }
        i += 1;
    }
    None
}

/// What a manifest request was answered with.
#[derive(Debug, Clone)]
pub enum ManifestDocument {
    /// The manifest of one image.
    Image { config_digest: String, layers: Vec<LayerDescriptor> },
    /// An index of manifests, one per platform.
    Index { entries: Vec<IndexEntry> },
}

/// What to do after the first answer.
#[derive(Debug, Clone)]
pub enum Resolution {
    /// The answer was the image's manifest.
    Manifest(ImageManifest),
    /// The answer was an index: ask again, for the manifest with this digest.
    FetchPlatform(String),
}

/// Decides on the first answer. An image's manifest is taken as it is. Of an
/// index the first entry for the platform asked for is followed; without such
/// an entry the platform is not available.
pub fn resolve_manifest(document: ManifestDocument, options: &PullOptions) -> (result: Result<
    Resolution,
    BuilderError,
>)
    ensures
        match document {
            ManifestDocument::Image { config_digest, layers } => {
                &&& total_size(layers@) <= u64::MAX ==> result is Ok
                &&& result matches Ok(resolution) ==> resolution matches Resolution::Manifest(
                    manifest,
                ) && manifest.config_digest == config_digest && manifest.layers == layers
                    && manifest.well_formed()
                &&& result matches Err(error) ==> error is Registry && total_size(layers@)
                    > u64::MAX
            },
            ManifestDocument::Index { entries } => {
                &&& no_match(entries@, *options) <==> result is Err
                &&& result matches Err(error) ==> error is PlatformNotAvailable && error.detail()
                    == "Platform "@ + options.platform_os@ + "/"@ + options.platform_arch@
                    + " not found in image index"@
                &&& result matches Ok(resolution) ==> resolution matches Resolution::FetchPlatform(
                    digest,
                ) && exists|i: int|
                    is_first_match(entries@, *options, i) && digest == entries@[i].digest
            },
        },
{
    match document {
        ManifestDocument::Image { config_digest, layers } => {
            match ImageManifest::new(config_digest, layers) {
                Ok(manifest) => Ok(Resolution::Manifest(manifest)),
                Err(error) => Err(error),
            }
        },
        ManifestDocument::Index { entries } => {
            match select_platform(&entries, options) {
                Some(i) => {
                    let digest = entries[i].digest.clone();
                    assert(is_first_match(entries@, *options, i as int));
                    Ok(Resolution::FetchPlatform(digest))
                },
                None => {
                    let mut detail = String::from_str("Platform ");
                    detail.append(options.platform_os.as_str());
                    detail.append("/");
                    detail.append(options.platform_arch.as_str());
                    detail.append(" not found in image index");
                    Err(BuilderError::PlatformNotAvailable(detail))
                },
            }
        },
    }
}

/// Decides on the answer to the second request, the one for a platform's
/// manifest: it has to be an image's manifest, and an index is refused as a
/// registry failure.
pub fn resolve_platform_manifest(document: ManifestDocument) -> (result: Result<
    ImageManifest,
    BuilderError,
>)
    ensures
        match document {
            ManifestDocument::Image { config_digest, layers } => {
                &&& total_size(layers@) <= u64::MAX ==> result is Ok
                &&& result matches Ok(manifest) ==> manifest.config_digest == config_digest
                    && manifest.layers == layers && manifest.well_formed()
                &&& result matches Err(error) ==> error is Registry && total_size(layers@)
                    > u64::MAX
            },
            ManifestDocument::Index { .. } => result matches Err(BuilderError::Registry(detail))
                && detail@ == "Expected image manifest, got index"@,
        },
{
    match document {
        ManifestDocument::Image { config_digest, layers } => ImageManifest::new(
            config_digest,
            layers,
        ),
        ManifestDocument::Index { .. } => Err(
            BuilderError::Registry(String::from_str("Expected image manifest, got index")),
        ),
    }
}

/// Which request a failure answered.
#[derive(Debug, Clone, Copy, PartialEq, Eq, Structural)]
pub enum Request {
    Manifest,
    Blob,
}

/// The kind of failure that a registry's answer amounts to: 401 is a failed
/// authentication, 404 to a manifest request is a missing image, and every
/// other status, or no answer at all, is a registry failure.
pub open spec fn failure_kind(request: Request, status: Option<u16>) -> int {
    if status == Some(401u16) {
        1
    } else if status == Some(404u16) && request == Request::Manifest {
        2
    } else {
        0
    }
}

/// Reports a failed request. `status` is the HTTP status of the answer, where
/// there was one; `detail` is kept as the error's text.
pub fn classify_failure(request: Request, status: Option<u16>, detail: String) -> (error:
    BuilderError)
    ensures
        error.detail() == detail@,
        failure_kind(request, status) == 1 <==> error is AuthFailed,
        failure_kind(request, status) == 2 <==> error is ImageNotFound,
        failure_kind(request, status) == 0 <==> error is Registry,
{
    match status {
        Some(code) => {
            if code == 401 {
                BuilderError::AuthFailed(detail)
            } else if code == 404 && request == Request::Manifest {
                BuilderError::ImageNotFound(detail)
            } else {
                BuilderError::Registry(detail)
            }
        },
        None => BuilderError::Registry(detail),
    }
}

/// What the observer of a pull is told before the layer at `index` is
/// fetched: the number of that layer, counted from 1, and the number of
/// layers. Behind the last layer there is nothing to tell.
pub fn progress_at(manifest: &ImageManifest, index: usize) -> (report: Option<(usize, usize)>)
    ensures
        index < manifest.layers@.len() ==> report == Some((
            (index + 1) as usize,
            manifest.layers@.len() as usize,
        )),
        index >= manifest.layers@.len() ==> report is None,
{
    if index < manifest.layers.len() {
        Some((index + 1, manifest.layers.len()))
    } else {
        None
    }
}

/// The parts that the `oci_distribution` crate reads out of an image
/// reference: registry, repository, tag and digest; nothing where it refuses
/// the text.
pub uninterp spec fn reference_parts(text: Seq<char>) -> Option<
    (Seq<char>, Seq<char>, Option<Seq<char>>, Option<Seq<char>>),
>;

/// `Reference::try_from` of `oci_distribution`, with the four getters of the
/// reference it returns. Trusted: the parts handed back are the named parts of
/// the text, and nothing is handed back exactly where the crate refuses it.
#[verifier::external_body]
fn parse_oci_reference(image: &str) -> (parts: Option<
    (String, String, Option<String>, Option<String>),
>)
    ensures
        match parts {
            Some(p) => reference_parts(image@) == Some(
                (p.0@, p.1@, optional_text(p.2), optional_text(p.3)),
            ),
            None => reference_parts(image@) is None,
        },
{
    match oci_distribution::Reference::try_from(image) {
        Ok(reference) => Some(
            (
                reference.registry().to_string(),
                reference.repository().to_string(),
                reference.tag().map(|tag| tag.to_string()),
                reference.digest().map(|digest| digest.to_string()),
            ),
        ),
        Err(_) => None,
    }
}

/// An image reference, taken apart: where the image lives and which of its
/// versions is meant. It names the version by a digest or by a tag, never by
/// both.
#[derive(Debug, Clone)]
pub struct ImageReference {
    registry: String,
    repository: String,
    tag: Option<String>,
    digest: Option<String>,
}

impl ImageReference {
    /// The registry's host, with its port if it has one.
    pub closed spec fn spec_registry(&self) -> Seq<char> {
        self.registry@
    }

    /// The repository.
    pub closed spec fn spec_repository(&self) -> Seq<char> {
        self.repository@
    }

    /// The tag, unless a digest names the version.
    pub closed spec fn spec_tag(&self) -> Option<Seq<char>> {
        optional_text(self.tag)
    }

    /// The digest, where one names the version.
    pub closed spec fn spec_digest(&self) -> Option<Seq<char>> {
        optional_text(self.digest)
    }

    /// Exactly one of tag and digest is there.
    pub open spec fn well_formed(&self) -> bool {
        self.spec_tag().is_some() != self.spec_digest().is_some()
    }

    /// The reference with these parts. A digest takes precedence: with one the
    /// tag is dropped. Without a digest and without a tag the tag is `latest`.
    pub fn from_parts(
        registry: String,
        repository: String,
        tag: Option<String>,
        digest: Option<String>,
    ) -> (reference: ImageReference)
        ensures
            reference.well_formed(),
            reference.spec_registry() == registry@,
            reference.spec_repository() == repository@,
            reference.spec_digest() == optional_text(digest),
            reference.spec_tag() == (if digest is Some {
                None
            } else if tag is Some {
                optional_text(tag)
            } else {
                Some(default_tag())
            }),
    {
        let tag = match digest {
            Some(_) => None,
            None => match tag {
                Some(t) => Some(t),
                None => Some(String::from_str("latest")),
            },
        };
        ImageReference { registry, repository, tag, digest }
    }

    /// The registry's host, with its port if it has one.
    pub fn registry(&self) -> (text: &str)
        ensures
            text@ == self.spec_registry(),
    {
        self.registry.as_str()
    }

    /// The repository.
    pub fn repository(&self) -> (text: &str)
        ensures
            text@ == self.spec_repository(),
    {
        self.repository.as_str()
    }

    /// The tag, unless a digest names the version.
    pub fn tag(&self) -> (text: Option<&str>)
        ensures
            match text {
                Some(t) => self.spec_tag() == Some(t@),
                None => self.spec_tag() is None,
            },
    {
        match &self.tag {
            Some(t) => Some(t.as_str()),
            None => None,
        }
    }

    /// The digest, where one names the version.
    pub fn digest(&self) -> (text: Option<&str>)
        ensures
            match text {
                Some(t) => self.spec_digest() == Some(t@),
                None => self.spec_digest() is None,
            },
    {
        match &self.digest {
            Some(t) => Some(t.as_str()),
            None => None,
        }
    }
}

/// What `parse_reference` makes of the parts that were read out of `image`.
pub fn reference_from_parsed(
    image: &str,
    parts: Option<(String, String, Option<String>, Option<String>)>,
) -> (result: Result<ImageReference, BuilderError>)
    ensures
        match parts {
            Some(p) => result matches Ok(reference) && reference.well_formed()
                && reference.spec_registry() == p.0@ && reference.spec_repository() == p.1@
                && reference.spec_digest() == optional_text(p.3) && reference.spec_tag() == (
            if p.3 is Some {
                None
            } else if p.2 is Some {
                optional_text(p.2)
            } else {
                Some(default_tag())
            }),
            None => result matches Err(BuilderError::InvalidImageRef(detail)) && detail@
                == image@,
        },
{
    match parts {
        Some(p) => Ok(ImageReference::from_parts(p.0, p.1, p.2, p.3)),
        None => Err(BuilderError::InvalidImageRef(String::from_str(image))),
    }
}

/// The client's side of a conversation with a registry: who it is, and what
/// it makes of references and answers.
#[derive(Debug, Clone)]
pub struct RegistryClient {
    auth: RegistryAuth,
}

impl RegistryClient {
    /// How the client identifies itself.
    pub closed spec fn spec_auth(&self) -> RegistryAuth {
        self.auth
    }

    /// A client that identifies itself by `auth`.
    pub fn new(auth: RegistryAuth) -> (client: Self)
        ensures
            client.spec_auth() == auth,
    {
        RegistryClient { auth }
    }

    /// How the client identifies itself.
    pub fn auth(&self) -> (auth: &RegistryAuth)
        ensures
            *auth == self.spec_auth(),
    {
        &self.auth
    }

    /// Reads an image reference of the form
    /// `[registry[:port]/]repository[:tag|@digest]`. A text that is no such
    /// reference is refused, with the text as the error's detail.
    pub fn parse_reference(image: &str) -> (result: Result<ImageReference, BuilderError>)
        ensures
            parse_reference_spec(image@, result),
    {
        let parts = parse_oci_reference(image);
        reference_from_parsed(image, parts)
    }
}

/// What `RegistryClient::parse_reference` returns for a text, given the parts
/// that are read out of it.
pub open spec fn parse_reference_spec(
    image: Seq<char>,
    result: Result<ImageReference, BuilderError>,
) -> bool {
    match reference_parts(image) {
        Some(p) => result matches Ok(reference) && reference.well_formed()
            && reference.spec_registry() == p.0 && reference.spec_repository() == p.1
            && reference.spec_digest() == p.3 && reference.spec_tag() == (if p.3 is Some {
            None
        } else if p.2 is Some {
            p.2
        } else {
            Some(default_tag())
        }),
        None => result matches Err(BuilderError::InvalidImageRef(detail)) && detail@ == image,
    }
}

} // verus!
