//! The three ways to wrap the archive: gzip, zstd, or as it is.

use crate::error::BuilderError;
use crate::text::str_equal;
use vstd::prelude::*;
use vstd::string::StringExecFns;

verus! {

/// `std::io::Error`, which the encoders and the reader of layers fail with.
/// It is carried as it is; nothing is known of what it holds.
#[verifier::external_type_specification]
#[verifier::external_body]
pub struct ExIoError(std::io::Error);

/// How the archive is compressed.
#[derive(Debug, Clone, Copy, PartialEq, Eq, Structural)]
pub enum Compression {
    /// gzip at the encoder's default level.
    Gzip,
    /// zstd at level 3.
    Zstd,
    /// No compression: the archive as it is. Its name is `none`.
    Raw,
}

/// The level that zstd is run at.
pub const ZSTD_LEVEL: i32 = 3;

/// The lower-case form of a text, as `str::to_lowercase` of std gives it.
pub uninterp spec fn lowercase_text(text: Seq<char>) -> Seq<char>;

/// The gzip stream that flate2 makes of `data` at its default level, with the
/// header it writes when nothing is configured; nothing where the encoder
/// fails on the data.
pub uninterp spec fn gzip_stream(data: Seq<u8>) -> Option<Seq<u8>>;

/// The zstd frame that the zstd crate's streaming encoder makes of `data` at
/// `level`, without a dictionary; nothing where the encoder fails on the data
/// or refuses the level.
pub uninterp spec fn zstd_stream(data: Seq<u8>, level: int) -> Option<Seq<u8>>;

/// The mode that a lower-case name stands for, if it is one of the six names.
pub open spec fn named_mode(name: Seq<char>) -> Option<Compression> {
    if name == "gzip"@ || name == "gz"@ {
        Some(Compression::Gzip)
    } else if name == "zstd"@ || name == "zst"@ {
        Some(Compression::Zstd)
    } else if name == "none"@ || name == "raw"@ {
        Some(Compression::Raw)
    } else {
        None
    }
}

/// What compressing `data` in `mode` gives: the encoder's stream, or the data
/// itself without compression; nothing where the encoder fails.
pub open spec fn encoded(data: Seq<u8>, mode: Compression) -> Option<Seq<u8>> {
    match mode {
        Compression::Gzip => gzip_stream(data),
        Compression::Zstd => zstd_stream(data, ZSTD_LEVEL as int),
        Compression::Raw => Some(data),
    }
}

/// `str::to_lowercase` of std: the text in lower case, by Unicode's rules.
/// Trusted: the result is the named lower-case form of the argument.
#[verifier::external_body]
fn to_lowercase(text: &str) -> (lower: String)
    ensures
        lower@ == lowercase_text(text@),
{
    text.to_lowercase()
}

/// `to_string` of `std::io::Error`: the text of an I/O error. Trusted: nothing
/// is said of the text.
#[verifier::external_body]
pub(crate) fn io_error_text(error: &std::io::Error) -> (text: String) {
    error.to_string()
}

/// `flate2::write::GzEncoder` over a `Vec`, at `flate2::Compression::default()`:
/// `new`, `write_all`, `finish`. Trusted: what the encoder wrote is the named
/// gzip stream of `data`, and it fails exactly where there is no such stream.
#[verifier::external_body]
fn gzip_encode(data: &[u8]) -> (outcome: Result<Vec<u8>, std::io::Error>)
    ensures
        match outcome {
            Ok(bytes) => gzip_stream(data@) == Some(bytes@),
            Err(_) => gzip_stream(data@) is None,
        },
{
    let mut encoder = flate2::write::GzEncoder::new(Vec::new(), flate2::Compression::default());
    std::io::Write::write_all(&mut encoder, data)?;
    encoder.finish()
}

/// `zstd::stream::Encoder` over a `Vec`: `new` at `level`, `write_all`,
/// `finish`. Trusted: what the encoder wrote is the named zstd frame of `data`
/// at that level, and it fails exactly where there is no such frame.
#[verifier::external_body]
fn zstd_encode(data: &[u8], level: i32) -> (outcome: Result<Vec<u8>, std::io::Error>)
    ensures
        match outcome {
            Ok(bytes) => zstd_stream(data@, level as int) == Some(bytes@),
            Err(_) => zstd_stream(data@, level as int) is None,
        },
{
    let mut encoder = zstd::stream::Encoder::new(Vec::new(), level)?;
    std::io::Write::write_all(&mut encoder, data)?;
    encoder.finish()
}

impl Compression {
    /// The name of the mode.
    pub open spec fn name(&self) -> Seq<char> {
        match self {
            Compression::Gzip => "gzip"@,
            Compression::Zstd => "zstd"@,
            Compression::Raw => "none"@,
        }
    }

    /// The name of the mode, as it is shown and as `parse` reads it.
    pub fn to_string(&self) -> (text: String)
        ensures
            text@ == self.name(),
    {
        match self {
            Compression::Gzip => String::from_str("gzip"),
            Compression::Zstd => String::from_str("zstd"),
            Compression::Raw => String::from_str("none"),
        }
    }

    /// The mode that `name`, which is taken as it is, stands for.
    pub fn from_name(name: &str) -> (mode: Option<Compression>)
        ensures
            mode == named_mode(name@),
    {
        if str_equal(name, "gzip") || str_equal(name, "gz") {
            Some(Compression::Gzip)
        } else if str_equal(name, "zstd") || str_equal(name, "zst") {
            Some(Compression::Zstd)
        } else if str_equal(name, "none") || str_equal(name, "raw") {
            Some(Compression::Raw)
        } else {
            None
        }
    }

    /// Reads a mode from its name, in any case of letters: `gzip` or `gz`,
    /// `zstd` or `zst`, `none` or `raw`. Anything else is refused, with a
    /// message that quotes it.
    pub fn parse(text: &str) -> (result: Result<Compression, String>)
        ensures
            match named_mode(lowercase_text(text@)) {
                Some(mode) => result == Ok::<Compression, String>(mode),
                None => result matches Err(message) && message@ == "Unknown compression: "@
                    + text@,
            },
    {
        let lower = to_lowercase(text);
        match Compression::from_name(lower.as_str()) {
            Some(mode) => Ok(mode),
            None => {
                let mut message = String::from_str("Unknown compression: ");
                message.append(text);
                Err(message)
            },
        }
    }
}

impl Default for Compression {
    fn default() -> (mode: Self)
        ensures
            mode == Compression::Gzip,
    {
        Compression::Gzip
    }
}

impl std::str::FromStr for Compression {
    type Err = String;

    fn from_str(text: &str) -> (result: Result<Self, String>)
        ensures
            match named_mode(lowercase_text(text@)) {
                Some(mode) => result == Ok::<Compression, String>(mode),
                None => result matches Err(message) && message@ == "Unknown compression: "@
                    + text@,
            },
    {
        Compression::parse(text)
    }
}

/// Reading the name of a mode gives the mode back.
pub proof fn law_name_names_mode(mode: Compression)
    ensures
        named_mode(mode.name()) == Some(mode),
{
    reveal_strlit("gzip");
    reveal_strlit("gz");
    reveal_strlit("zstd");
    reveal_strlit("zst");
    reveal_strlit("none");
    reveal_strlit("raw");
    assert("gzip"@.len() == 4 && "gzip"@[0] == 'g');
    assert("gz"@.len() == 2);
    assert("zstd"@.len() == 4 && "zstd"@[0] == 'z');
    assert("zst"@.len() == 3);
    assert("none"@.len() == 4 && "none"@[0] == 'n');
}

/// Without compression the output is the archive itself, byte for byte, and
/// so as long as the archive.
pub proof fn law_raw_output_is_the_input(data: Seq<u8>)
    ensures
        encoded(data, Compression::Raw) == Some(data),
{
}

/// What the encoder handed back, as this library reports it: the bytes, or a
/// compression failure with the encoder's words.
pub fn encoder_outcome(outcome: Result<Vec<u8>, std::io::Error>) -> (result: Result<
    Vec<u8>,
    BuilderError,
>)
    ensures
        match outcome {
            Ok(bytes) => result == Ok::<Vec<u8>, BuilderError>(bytes),
            Err(_) => result matches Err(BuilderError::Compression(_)),
        },
{
    match outcome {
        Ok(bytes) => Ok(bytes),
        Err(error) => Err(BuilderError::Compression(io_error_text(&error))),
    }
}

/// Compresses `data` in `compression`. Without compression the bytes come back
/// as they are, and that cannot fail; with it, the result is the encoder's
/// stream, and a compression failure exactly where the encoder has none.
pub fn compress_archive(data: &[u8], compression: Compression) -> (result: Result<
    Vec<u8>,
    BuilderError,
>)
    ensures
        match encoded(data@, compression) {
            Some(stream) => result matches Ok(bytes) && bytes@ == stream,
            None => result matches Err(BuilderError::Compression(_)),
        },
{
    match compression {
        Compression::Gzip => encoder_outcome(gzip_encode(data)),
        Compression::Zstd => encoder_outcome(zstd_encode(data, ZSTD_LEVEL)),
        Compression::Raw => {
            let mut bytes: Vec<u8> = Vec::new();
            let mut i: usize = 0;
            while i < data.len()
                invariant
                    i <= data.len(),
                    bytes@ == data@.take(i as int),
                decreases data.len() - i,
            {
                bytes.push(data[i]);
                i += 1;
                assert(bytes@ =~= data@.take(i as int));
            }
            assert(data@.take(i as int) =~= data@);
            Ok(bytes)
        },
    }
}

} // verus!
