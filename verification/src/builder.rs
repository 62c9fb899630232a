//! The recipe of a build, and what follows from it without touching the
//! network or the disk: how the staging tree is completed once the layers are
//! in it, and what is reported when the archive is written.

use crate::compress::{compress_archive, encoded, Compression};
use crate::cpio::{archive_bytes, encodable, CpioArchive, CpioEntry};
use crate::error::BuilderError;
use crate::registry::{PullOptions, RegistryAuth};
use crate::text::{optional_text, slice_texts, texts};
use vstd::prelude::*;
use vstd::string::{StrSliceExecFns, StringExecFns};
use vstd::utf8::encode_utf8;

verus! {

/// The mode that executable injections and `/init` are given.
pub const EXECUTABLE_MODE: u32 = 0o755;

/// A host file to be put into the root filesystem.
#[derive(Debug, Clone)]
pub struct InjectFile {
    /// The file on the host.
    pub src: String,
    /// Where it goes in the root filesystem; a leading slash means nothing.
    pub dest: String,
    /// Whether it is made executable there.
    pub executable: bool,
}

impl InjectFile {
    /// An injection of `src` at `dest` that leaves the mode as it is copied.
    pub fn new(src: &str, dest: &str) -> (file: Self)
        ensures
            file.src@ == src@,
            file.dest@ == dest@,
            !file.executable,
    {
        InjectFile { src: String::from_str(src), dest: String::from_str(dest), executable: false }
    }

    /// The same injection, made executable.
    pub fn executable(self) -> (file: Self)
        ensures
            file.src == self.src,
            file.dest == self.dest,
            file.executable,
    {
        InjectFile { src: self.src, dest: self.dest, executable: true }
    }
}

/// What a build reports.
#[derive(Debug, Clone)]
pub struct BuildResult {
    /// The number of entries in the archive, the closing record not counted.
    pub entries: usize,
    /// The length of the archive.
    pub uncompressed_size: u64,
    /// The length of what was written out.
    pub compressed_size: u64,
    pub compression: Compression,
    /// The number of injections in the recipe.
    pub injected_files: usize,
    /// Whether the recipe names an init script of its own.
    pub has_custom_init: bool,
}

/// The recipe, as contracts see it.
pub struct BuilderView {
    pub image: Option<Seq<char>>,
    pub compression: Compression,
    pub exclude_patterns: Seq<Seq<char>>,
    pub platform_os: Seq<char>,
    pub platform_arch: Seq<char>,
    pub auth: RegistryAuth,
    pub inject_files: Seq<InjectFile>,
    pub init_script: Option<Seq<char>>,
}

/// The recipe of a build: which image, for which platform, what is left out,
/// what is added, and how the archive is compressed.
pub struct InitramfsBuilder {
    image: Option<String>,
    compression: Compression,
    exclude_patterns: Vec<String>,
    platform_os: String,
    platform_arch: String,
    auth: RegistryAuth,
    inject_files: Vec<InjectFile>,
    init_script: Option<String>,
}

impl View for InitramfsBuilder {
    type V = BuilderView;

    closed spec fn view(&self) -> BuilderView {
        BuilderView {
            image: optional_text(self.image),
            compression: self.compression,
            exclude_patterns: texts(self.exclude_patterns@),
            platform_os: self.platform_os@,
            platform_arch: self.platform_arch@,
            auth: self.auth,
            inject_files: self.inject_files@,
            init_script: optional_text(self.init_script),
        }
    }
}

impl InitramfsBuilder {
    /// The empty recipe: no image yet, gzip, nothing excluded or injected,
    /// the default init, for linux on amd64, anonymously.
    pub fn new() -> (builder: Self)
        ensures
            builder@.image is None,
            builder@.compression == Compression::Gzip,
            builder@.exclude_patterns == Seq::<Seq<char>>::empty(),
            builder@.platform_os == "linux"@,
            builder@.platform_arch == "amd64"@,
            builder@.auth is Anonymous,
            builder@.inject_files == Seq::<InjectFile>::empty(),
            builder@.init_script is None,
    {
        let builder = InitramfsBuilder {
            image: None,
            compression: Compression::Gzip,
            exclude_patterns: Vec::new(),
            platform_os: String::from_str("linux"),
            platform_arch: String::from_str("amd64"),
            auth: RegistryAuth::Anonymous,
            inject_files: Vec::new(),
            init_script: None,
        };
        assert(builder@.exclude_patterns =~= Seq::<Seq<char>>::empty());
        builder
    }

    /// Names the image.
    pub fn image(self, image: &str) -> (builder: Self)
        ensures
            builder@ == (BuilderView { image: Some(image@), ..self@ }),
    {
        let mut builder = self;
        builder.image = Some(String::from_str(image));
        builder
    }

    /// Chooses the compression.
    pub fn compression(self, compression: Compression) -> (builder: Self)
        ensures
            builder@ == (BuilderView { compression, ..self@ }),
    {
        let mut builder = self;
        builder.compression = compression;
        builder
    }

    /// Adds patterns of paths to leave out, behind those that are there.
    pub fn exclude(self, patterns: &[&str]) -> (builder: Self)
        ensures
            builder@ == (BuilderView {
                exclude_patterns: self@.exclude_patterns + slice_texts(patterns@),
                ..self@
            }),
    {
        let mut builder = self;
        let mut i: usize = 0;
        assert(patterns@.take(0) =~= Seq::<&str>::empty());
        assert(self@.exclude_patterns + slice_texts(patterns@.take(0)) =~= self@.exclude_patterns);
        while i < patterns.len()
            invariant
                i <= patterns.len(),
                builder@ == (BuilderView {
                    exclude_patterns: self@.exclude_patterns + slice_texts(patterns@.take(i as int)),
                    ..self@
                }),
            decreases patterns.len() - i,
        {
            let ghost before = builder.exclude_patterns@;
            let pattern = String::from_str(patterns[i]);
            builder.exclude_patterns.push(pattern);
            proof {
                assert(texts(builder.exclude_patterns@) =~= texts(before).push(patterns@[i as int]@));
                assert(slice_texts(patterns@.take(i + 1)) =~= slice_texts(
                    patterns@.take(i as int),
                ).push(patterns@[i as int]@));
                assert(builder@.exclude_patterns =~= self@.exclude_patterns + slice_texts(
                    patterns@.take(i + 1),
                ));
            }
            i += 1;
        }
        assert(patterns@.take(i as int) =~= patterns@);
        builder
    }

    /// Chooses the platform.
    pub fn platform(self, os: &str, arch: &str) -> (builder: Self)
        ensures
            builder@ == (BuilderView { platform_os: os@, platform_arch: arch@, ..self@ }),
    {
        let mut builder = self;
        builder.platform_os = String::from_str(os);
        builder.platform_arch = String::from_str(arch);
        builder
    }

    /// Sets how the registry is addressed.
    pub fn auth(self, auth: RegistryAuth) -> (builder: Self)
        ensures
            builder@ == (BuilderView { auth, ..self@ }),
    {
        let mut builder = self;
        builder.auth = auth;
        builder
    }

    /// Adds the host file `src` at `dest`, executable, behind the injections
    /// that are there.
    pub fn inject(self, src: &str, dest: &str) -> (builder: Self)
        ensures
            builder@.inject_files.len() == self@.inject_files.len() + 1,
            builder@.inject_files.drop_last() == self@.inject_files,
            builder@.inject_files.last().src@ == src@,
            builder@.inject_files.last().dest@ == dest@,
            builder@.inject_files.last().executable,
            builder@ == (BuilderView { inject_files: builder@.inject_files, ..self@ }),
    {
        let mut builder = self;
        builder.inject_files.push(InjectFile::new(src, dest).executable());
        assert(builder@.inject_files.drop_last() =~= self@.inject_files);
        builder
    }

    /// Adds an injection as it is given, behind those that are there.
    pub fn inject_file(self, file: InjectFile) -> (builder: Self)
        ensures
            builder@ == (BuilderView { inject_files: self@.inject_files.push(file), ..self@ }),
    {
        let mut builder = self;
        builder.inject_files.push(file);
        builder
    }

    /// Names the host file that becomes `/init`.
    pub fn init_script(self, path: &str) -> (builder: Self)
        ensures
            builder@ == (BuilderView { init_script: Some(path@), ..self@ }),
    {
        let mut builder = self;
        builder.init_script = Some(String::from_str(path));
        builder
    }
}

impl Default for InitramfsBuilder {
    fn default() -> (builder: Self)
        ensures
            builder@.image is None,
            builder@.compression == Compression::Gzip,
            builder@.exclude_patterns == Seq::<Seq<char>>::empty(),
            builder@.platform_os == "linux"@,
            builder@.platform_arch == "amd64"@,
            builder@.auth is Anonymous,
            builder@.inject_files == Seq::<InjectFile>::empty(),
            builder@.init_script is None,
    {
        InitramfsBuilder::new()
    }
}

/// The script that becomes `/init` where the recipe names none: it mounts
/// `proc`, `sysfs` and `devtmpfs`, each of which may be mounted already, runs
/// the first of the usual entry points that is executable, and falls back to
/// a shell.
pub const DEFAULT_INIT: &'static str =
    "#!/bin/sh\nmount -t proc proc /proc 2>/dev/null\nmount -t sysfs sysfs /sys 2>/dev/null\nmount -t devtmpfs devtmpfs /dev 2>/dev/null\n\nfor cmd in /docker-entrypoint.sh /entrypoint.sh /usr/bin/entrypoint.sh; do\n    [ -x \"$cmd\" ] && exec \"$cmd\"\ndone\n\nexec /bin/sh\n";

/// The text of the default init script.
pub open spec fn default_init_text() -> Seq<char> {
    DEFAULT_INIT@
}

/// The default init script.
pub fn default_init_script() -> (script: &'static str)
    ensures
        script@ == default_init_text(),
{
    DEFAULT_INIT
}

/// A destination as a path below the staging root: one leading slash, if
/// there is one, is dropped.
pub open spec fn staged_path(dest: Seq<char>) -> Seq<char> {
    if dest.len() > 0 && dest[0] == '/' {
        dest.subrange(1, dest.len() as int)
    } else {
        dest
    }
}

/// The path below the staging root that a destination means.
pub fn staged_path_of(dest: &str) -> (path: String)
    ensures
        path@ == staged_path(dest@),
{
    let n = dest.unicode_len();
    if n > 0 && dest.get_char(0) == '/' {
        String::from_str(dest.substring_char(1, n))
    } else {
        String::from_str(dest)
    }
}

/// One change to the staging tree, made after the layers are in it. Paths in
/// `dest` are relative to the staging root; missing parent directories are
/// created, and a file that is there is replaced.
#[derive(Debug, Clone)]
pub enum StagingStep {
    /// Copy the host file `src` to `dest`; then, with a mode, set it.
    Copy { src: String, dest: String, mode: Option<u32> },
    /// Write `contents` to `dest`; then, with a mode, set it.
    Write { dest: String, contents: Vec<u8>, mode: Option<u32> },
}

impl StagingStep {
    /// Where the step writes.
    pub open spec fn dest(&self) -> Seq<char> {
        match self {
            StagingStep::Copy { dest, .. } => dest@,
            StagingStep::Write { dest, .. } => dest@,
        }
    }

    /// The mode that the step sets, if it sets one.
    pub open spec fn mode(&self) -> Option<u32> {
        match self {
            StagingStep::Copy { mode, .. } => *mode,
            StagingStep::Write { mode, .. } => *mode,
        }
    }
}

/// Whether `step` carries out the injection `file`: a copy of its source to
/// its destination below the root, made executable if the injection says so.
pub open spec fn step_injects(step: StagingStep, file: InjectFile) -> bool {
    step matches StagingStep::Copy { src, dest, mode } && src@ == file.src@ && dest@ == staged_path(
        file.dest@,
    ) && mode == (if file.executable {
        Some(EXECUTABLE_MODE)
    } else {
        None
    })
}

/// Whether `step` places `/init`: the script that the recipe names, or the
/// default script, at `init`, executable.
pub open spec fn step_places_init(step: StagingStep, init_script: Option<Seq<char>>) -> bool {
    match init_script {
        Some(path) => step matches StagingStep::Copy { src, dest, mode } && src@ == path && dest@
            == "init"@ && mode == Some(EXECUTABLE_MODE),
        None => step matches StagingStep::Write { dest, contents, mode } && dest@ == "init"@
            && contents@ == encode_utf8(default_init_text()) && mode == Some(EXECUTABLE_MODE),
    }
}

/// Whether `plan` completes the staging tree as the recipe asks: the
/// injections in their order, then `/init`.
pub open spec fn is_staging_plan(plan: Seq<StagingStep>, recipe: BuilderView) -> bool {
    &&& plan.len() == recipe.inject_files.len() + 1
    &&& forall|i: int|
        0 <= i < recipe.inject_files.len() ==> step_injects(
            #[trigger] plan[i],
            recipe.inject_files[i],
        )
    &&& step_places_init(plan.last(), recipe.init_script)
}

/// Whether `report` is the report of a build by `recipe` that archived
/// `entries` and wrote `output` out: the number of entries, the length of the
/// archive and of the output, and from the recipe the compression, the number
/// of injections and whether it names an init script of its own.
pub open spec fn is_report_of(
    report: BuildResult,
    recipe: BuilderView,
    entries: Seq<CpioEntry>,
    output: Seq<u8>,
) -> bool {
    &&& report.entries == entries.len()
    &&& report.uncompressed_size == archive_bytes(entries).len()
    &&& report.compressed_size == output.len()
    &&& report.compression == recipe.compression
    &&& report.injected_files == recipe.inject_files.len()
    &&& report.has_custom_init == recipe.init_script.is_some()
}

impl InitramfsBuilder {
    /// The image of the recipe; a recipe without one cannot be built.
    pub fn image_name(&self) -> (result: Result<&str, BuilderError>)
        ensures
            match self@.image {
                Some(image) => result matches Ok(name) && name@ == image,
                None => result matches Err(BuilderError::InvalidImageRef(detail)) && detail@
                    == "No image specified"@,
            },
    {
        match &self.image {
            Some(image) => Ok(image.as_str()),
            None => Err(BuilderError::InvalidImageRef(String::from_str("No image specified"))),
        }
    }

    /// The platform of the recipe.
    pub fn pull_options(&self) -> (options: PullOptions)
        ensures
            options.platform_os@ == self@.platform_os,
            options.platform_arch@ == self@.platform_arch,
    {
        PullOptions {
            platform_os: self.platform_os.clone(),
            platform_arch: self.platform_arch.clone(),
        }
    }

    /// How the registry is addressed.
    pub fn registry_auth(&self) -> (auth: &RegistryAuth)
        ensures
            *auth == self@.auth,
    {
        &self.auth
    }

    /// The patterns of paths that are left out.
    pub fn excluded(&self) -> (patterns: &Vec<String>)
        ensures
            texts(patterns@) == self@.exclude_patterns,
    {
        &self.exclude_patterns
    }

    /// The changes that complete the staging tree once the layers are in it:
    /// the injections in their order, then `/init`, always last and always
    /// executable.
    pub fn staging_plan(&self) -> (plan: Vec<StagingStep>)
        ensures
            is_staging_plan(plan@, self@),
    {
        let mut plan: Vec<StagingStep> = Vec::new();
        let mut i: usize = 0;
        while i < self.inject_files.len()
            invariant
                i <= self.inject_files.len(),
                plan@.len() == i,
                forall|j: int|
                    0 <= j < i ==> step_injects(#[trigger] plan@[j], self.inject_files@[j]),
            decreases self.inject_files.len() - i,
        {
            let file = &self.inject_files[i];
            let mode = if file.executable {
                Some(EXECUTABLE_MODE)
            } else {
                None
            };
            plan.push(
                StagingStep::Copy {
                    src: file.src.clone(),
                    dest: staged_path_of(file.dest.as_str()),
                    mode,
                },
            );
            i += 1;
        }
        let init = match &self.init_script {
            Some(path) => StagingStep::Copy {
                src: path.clone(),
                dest: String::from_str("init"),
                mode: Some(EXECUTABLE_MODE),
            },
            None => StagingStep::Write {
                dest: String::from_str("init"),
                contents: default_init_script().as_bytes_vec(),
                mode: Some(EXECUTABLE_MODE),
            },
        };
        plan.push(init);
        plan
    }

    /// Writes the archive out and compresses it as the recipe says. Gives the
    /// bytes for the output file and the report of the build. An archive that
    /// cannot be written is refused; otherwise the build fails exactly where
    /// the encoder does.
    pub fn package(&self, archive: &CpioArchive) -> (result: Result<
        (Vec<u8>, BuildResult),
        BuilderError,
    >)
        ensures
            if !encodable(archive@) {
                result matches Err(BuilderError::CpioGeneration(_))
            } else {
                match encoded(archive_bytes(archive@), self@.compression) {
                    Some(stream) => result matches Ok(packed) && packed.0@ == stream
                        && is_report_of(packed.1, self@, archive@, stream),
                    None => result matches Err(BuilderError::Compression(_)),
                }
            },
    {
        let mut cpio: Vec<u8> = Vec::new();
        match archive.write_to(&mut cpio) {
            Ok(()) => {},
            Err(error) => {
                return Err(error);
            },
        }
        assert(cpio@ =~= archive_bytes(archive@));
        match compress_archive(cpio.as_slice(), self.compression) {
            Ok(bytes) => {
                let summary = BuildResult {
                    entries: archive.len(),
                    uncompressed_size: cpio.len() as u64,
                    compressed_size: bytes.len() as u64,
                    compression: self.compression,
                    injected_files: self.inject_files.len(),
                    has_custom_init: self.init_script.is_some(),
                };
                Ok((bytes, summary))
            },
            Err(error) => Err(error),
        }
    }
}

/// Whether `i` is where the first colon of `text` stands.
pub open spec fn is_first_colon(text: Seq<char>, i: int) -> bool {
    &&& 0 <= i < text.len()
    &&& text[i] == ':'
    &&& forall|j: int| 0 <= j < i ==> text[j] != ':'
}

/// Reads an injection written as `SRC:DEST`: the host path is what stands
/// before the first colon, the destination what follows it. A text without a
/// colon is refused, with a message that quotes it.
pub fn parse_inject(text: &str) -> (result: Result<(String, String), String>)
    ensures
        match result {
            Ok(pair) => exists|i: int|
                is_first_colon(text@, i) && pair.0@ == text@.subrange(0, i) && pair.1@
                    == text@.subrange(i + 1, text@.len() as int),
            Err(message) => (forall|j: int| 0 <= j < text@.len() ==> text@[j] != ':') && message@
                == "Invalid inject format '"@ + text@
                + "'. Expected format: /path/on/host:/path/in/initramfs"@,
        },
{
    let n = text.unicode_len();
    let mut i: usize = 0;
    while i < n
        invariant
            i <= n == text@.len(),
            forall|j: int| 0 <= j < i ==> text@[j] != ':',
        decreases n - i,
    {
        if text.get_char(i) == ':' {
            let src = String::from_str(text.substring_char(0, i));
            let dest = String::from_str(text.substring_char(i + 1, n));
            assert(is_first_colon(text@, i as int));
            return Ok((src, dest));
        }
        i += 1;
    }
    let mut message = String::from_str("Invalid inject format '");
    message.append(text);
    message.append("'. Expected format: /path/on/host:/path/in/initramfs");
    Err(message)
}

} // verus!
