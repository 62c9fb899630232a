//! Layers: what the entries of a layer do to the staging tree. A layer is a
//! gzipped tar. Its markers take paths of lower layers away before its own
//! entries are put in place; what is put in place, and how, is decided here
//! and carried out by the caller.

use crate::error::BuilderError;
use crate::paths::{
    basename, basename_of, copy_range, join, join_paths, parent, parent_of, staged, staged_of,
};
use crate::text::{bytes_equal, has_prefix, slice_texts, starts_with, texts};
use vstd::prelude::*;
use vstd::string::StringExecFns;

verus! {

/// The bytes `.wh.`, which begin the name of every marker.
pub open spec fn whiteout_prefix() -> Seq<u8> {
    seq![46u8, 119u8, 104u8, 46u8]
}

/// The bytes `.wh..wh..opq`, the name of the marker that empties its
/// directory.
pub open spec fn opaque_marker() -> Seq<u8> {
    seq![46u8, 119u8, 104u8, 46u8, 46u8, 119u8, 104u8, 46u8, 46u8, 111u8, 112u8, 113u8]
}

/// Whether an entry with this path is a marker: its last component begins
/// with `.wh.`. Markers are never put into the tree.
pub open spec fn is_marker(path: Seq<u8>) -> bool {
    has_prefix(basename(path), whiteout_prefix())
}

/// What kind of entry a tar header announces, as far as it matters here.
#[derive(Debug, Clone, Copy, PartialEq, Eq, Structural)]
pub enum EntryKind {
    /// A hard link to another path of the archive.
    HardLink,
    /// A symbolic link.
    Symlink,
    /// A regular file, a directory, or anything else that is unpacked as the
    /// archive describes it.
    Other,
}

/// One entry of a layer, as it is listed: its path, its kind, and the name it
/// links to where the header has one.
#[derive(Debug, Clone)]
pub struct LayerEntry {
    pub path: Vec<u8>,
    pub kind: EntryKind,
    pub link_name: Option<Vec<u8>>,
}

/// A listed entry, as contracts see it.
pub struct LayerEntryView {
    pub path: Seq<u8>,
    pub kind: EntryKind,
    pub link_name: Option<Seq<u8>>,
}

impl View for LayerEntry {
    type V = LayerEntryView;

    open spec fn view(&self) -> LayerEntryView {
        LayerEntryView {
            path: self.path@,
            kind: self.kind,
            link_name: match self.link_name {
                Some(name) => Some(name@),
                None => None,
            },
        }
    }
}

/// What a marker takes away from the tree. Paths are relative to the staging
/// root; the empty path is the root itself.
#[derive(Debug, Clone, PartialEq, Eq)]
pub enum WhiteoutAction {
    /// The entry is no marker: nothing is taken away.
    Keep,
    /// If the directory is there, everything below it goes, and it stays,
    /// empty.
    ClearDirectory(Vec<u8>),
    /// If the path is there, it goes, with everything below it.
    Remove(Vec<u8>),
}

/// A whiteout action, as contracts see it.
pub enum WhiteoutView {
    Keep,
    ClearDirectory(Seq<u8>),
    Remove(Seq<u8>),
}

impl View for WhiteoutAction {
    type V = WhiteoutView;

    open spec fn view(&self) -> WhiteoutView {
        match self {
            WhiteoutAction::Keep => WhiteoutView::Keep,
            WhiteoutAction::ClearDirectory(dir) => WhiteoutView::ClearDirectory(dir@),
            WhiteoutAction::Remove(path) => WhiteoutView::Remove(path@),
        }
    }
}

/// What the entry at `path` takes away. The opaque marker empties the
/// directory it lies in. Any other marker `.wh.<name>` removes `<name>` in
/// the directory it lies in. Every other entry takes nothing away.
pub open spec fn whiteout_of(path: Seq<u8>) -> WhiteoutView {
    let name = basename(path);
    if name == opaque_marker() {
        WhiteoutView::ClearDirectory(staged(parent(path)))
    } else if has_prefix(name, whiteout_prefix()) {
        WhiteoutView::Remove(staged(join(parent(path), name.subrange(4, name.len() as int))))
    } else {
        WhiteoutView::Keep
    }
}

/// How an entry is put into the tree. Paths in `path` are relative to the
/// staging root. But for `Skip`, the directory that `path` lies in is made
/// first if it is not there.
#[derive(Debug, Clone, PartialEq, Eq)]
pub enum ExtractAction {
    /// Nothing is done: the entry is a marker, or it is excluded.
    Skip,
    /// The entry is unpacked at `path` as the archive describes it, with its
    /// mode and its time of change, without its owner or extended attributes.
    Unpack { path: Vec<u8> },
    /// If `source`, a path below the staging root, is there, `path` becomes a
    /// hard link to it, or failing that a copy of it.
    HardLink { path: Vec<u8>, source: Vec<u8> },
    /// What is at `path` goes, and a symbolic link to `target`, taken as it
    /// is, comes there.
    Symlink { path: Vec<u8>, target: Vec<u8> },
    /// A link whose header names no target: only the directory is made.
    ParentOnly { path: Vec<u8> },
}

/// An extract action, as contracts see it.
pub enum ExtractView {
    Skip,
    Unpack { path: Seq<u8> },
    HardLink { path: Seq<u8>, source: Seq<u8> },
    Symlink { path: Seq<u8>, target: Seq<u8> },
    ParentOnly { path: Seq<u8> },
}

impl View for ExtractAction {
    type V = ExtractView;

    open spec fn view(&self) -> ExtractView {
        match self {
            ExtractAction::Skip => ExtractView::Skip,
            ExtractAction::Unpack { path } => ExtractView::Unpack { path: path@ },
            ExtractAction::HardLink { path, source } => ExtractView::HardLink {
                path: path@,
                source: source@,
            },
            ExtractAction::Symlink { path, target } => ExtractView::Symlink {
                path: path@,
                target: target@,
            },
            ExtractAction::ParentOnly { path } => ExtractView::ParentOnly { path: path@ },
        }
    }
}

/// How `entry` is put into the tree, given whether its path is excluded.
/// Markers and excluded paths are skipped; everything else goes by its kind.
pub open spec fn extract_of(entry: LayerEntryView, excluded: bool) -> ExtractView {
    if is_marker(entry.path) || excluded {
        ExtractView::Skip
    } else {
        match entry.kind {
            EntryKind::HardLink => match entry.link_name {
                Some(name) => ExtractView::HardLink {
                    path: staged(entry.path),
                    source: staged(name),
                },
                None => ExtractView::ParentOnly { path: staged(entry.path) },
            },
            EntryKind::Symlink => match entry.link_name {
                Some(name) => ExtractView::Symlink { path: staged(entry.path), target: name },
                None => ExtractView::ParentOnly { path: staged(entry.path) },
            },
            EntryKind::Other => ExtractView::Unpack { path: staged(entry.path) },
        }
    }
}

/// Whether `name` begins with `.wh.`.
fn has_whiteout_prefix(name: &[u8]) -> (yes: bool)
    ensures
        yes == has_prefix(name@, whiteout_prefix()),
{
    let prefix: [u8; 4] = [46u8, 119u8, 104u8, 46u8];
    assert(prefix@ =~= whiteout_prefix());
    starts_with(name, prefix.as_slice())
}

/// Whether `name` is `.wh..wh..opq`.
fn is_opaque_marker(name: &[u8]) -> (yes: bool)
    ensures
        yes == (name@ == opaque_marker()),
{
    let marker: [u8; 12] = [
        46u8,
        119u8,
        104u8,
        46u8,
        46u8,
        119u8,
        104u8,
        46u8,
        46u8,
        111u8,
        112u8,
        113u8,
    ];
    assert(marker@ =~= opaque_marker());
    bytes_equal(name, marker.as_slice())
}

/// What the entry at `path` takes away from the tree.
pub fn whiteout_action(path: &[u8]) -> (action: WhiteoutAction)
    ensures
        action@ == whiteout_of(path@),
{
    let name = basename_of(path);
    if is_opaque_marker(name.as_slice()) {
        let dir = parent_of(path);
        WhiteoutAction::ClearDirectory(staged_of(dir.as_slice()))
    } else if has_whiteout_prefix(name.as_slice()) {
        let dir = parent_of(path);
        let removed = copy_range(name.as_slice(), 4, name.len());
        let target = join_paths(dir.as_slice(), removed.as_slice());
        WhiteoutAction::Remove(staged_of(target.as_slice()))
    } else {
        WhiteoutAction::Keep
    }
}

/// How `entry` is put into the tree, given whether its path is excluded.
pub fn extract_action(entry: &LayerEntry, excluded: bool) -> (action: ExtractAction)
    ensures
        action@ == extract_of(entry@, excluded),
{
    let name = basename_of(entry.path.as_slice());
    if has_whiteout_prefix(name.as_slice()) || excluded {
        return ExtractAction::Skip;
    }
    let path = staged_of(entry.path.as_slice());
    match entry.kind {
        EntryKind::HardLink => match &entry.link_name {
            Some(link) => ExtractAction::HardLink { path, source: staged_of(link.as_slice()) },
            None => ExtractAction::ParentOnly { path },
        },
        EntryKind::Symlink => match &entry.link_name {
            Some(link) => {
                let target = copy_range(link.as_slice(), 0, link.len());
                assert(target@ =~= link@);
                ExtractAction::Symlink { path, target }
            },
            None => ExtractAction::ParentOnly { path },
        },
        EntryKind::Other => ExtractAction::Unpack { path },
    }
}

/// The text that `String::from_utf8_lossy` of std makes of bytes: the text
/// they encode, with a replacement character for what is no UTF-8.
pub uninterp spec fn lossy_text(bytes: Seq<u8>) -> Seq<char>;

/// Whether the `glob` crate accepts a text as a pattern.
pub uninterp spec fn glob_valid(pattern: Seq<char>) -> bool;

/// Whether a text matches a pattern, as the `glob` crate decides it with its
/// default options. An invalid pattern matches nothing.
pub uninterp spec fn glob_match(pattern: Seq<char>, text: Seq<char>) -> bool;

/// The entries of a gzipped tar, in the order of the archive, as the `flate2`
/// and `tar` crates read them; nothing where they fail on it.
pub uninterp spec fn layer_listing(layer: Seq<u8>) -> Option<Seq<LayerEntryView>>;

/// The entries as contracts see them.
pub open spec fn entry_views(entries: Seq<LayerEntry>) -> Seq<LayerEntryView> {
    entries.map_values(|entry: LayerEntry| entry@)
}

/// `String::from_utf8_lossy` of std. Trusted: the result is the named text of
/// the bytes.
#[verifier::external_body]
fn lossy_text_of(bytes: &[u8]) -> (text: String)
    ensures
        text@ == lossy_text(bytes@),
{
    String::from_utf8_lossy(bytes).into_owned()
}

/// `glob::Pattern::new`, asked only whether it succeeds. Trusted: the answer
/// is the named validity of the text.
#[verifier::external_body]
fn pattern_is_valid(pattern: &str) -> (valid: bool)
    ensures
        valid == glob_valid(pattern@),
{
    glob::Pattern::new(pattern).is_ok()
}

/// `glob::Pattern::matches` on the pattern compiled from `pattern`. Trusted:
/// the answer is the named match of the two texts, and no match where the
/// pattern does not compile.
#[verifier::external_body]
fn pattern_matches(pattern: &str, text: &str) -> (hit: bool)
    ensures
        hit == glob_match(pattern@, text@),
{
    match glob::Pattern::new(pattern) {
        Ok(compiled) => compiled.matches(text),
        Err(_) => false,
    }
}

/// `tar::Archive::entries` over `flate2::read::GzDecoder`, with `path_bytes`,
/// `link_name_bytes` and `header().entry_type()` of each entry. Trusted: the
/// entries handed back are the named listing of the layer, and the call fails
/// exactly where there is no listing.
#[verifier::external_body]
fn list_layer(layer: &[u8]) -> (outcome: Result<Vec<LayerEntry>, std::io::Error>)
    ensures
        match outcome {
            Ok(entries) => layer_listing(layer@) == Some(entry_views(entries@)),
            Err(_) => layer_listing(layer@) is None,
        },
{
    let mut archive = tar::Archive::new(flate2::read::GzDecoder::new(layer));
    let mut entries = Vec::new();
    for entry in archive.entries()? {
        let entry = entry?;
        let kind = match entry.header().entry_type() {
            tar::EntryType::Link => EntryKind::HardLink,
            tar::EntryType::Symlink => EntryKind::Symlink,
            _ => EntryKind::Other,
        };
        let link_name = entry.link_name_bytes().map(|name| name.into_owned());
        entries.push(LayerEntry { path: entry.path_bytes().into_owned(), kind, link_name });
    }
    Ok(entries)
}

/// Whether one of the patterns matches the path, read as text.
pub open spec fn excluded_by(patterns: Seq<Seq<char>>, path: Seq<u8>) -> bool {
    exists|i: int| 0 <= i < patterns.len() && glob_match(#[trigger] patterns[i], lossy_text(path))
}

/// What is done with the entries of one layer: one whiteout action and one
/// extract action for each entry, in the order of the layer. All whiteout
/// actions are carried out before the first extract action.
#[derive(Debug, Clone)]
pub struct LayerPlan {
    pub whiteouts: Vec<WhiteoutAction>,
    pub extracts: Vec<ExtractAction>,
}

/// Whether `plan` is the plan for these entries under these patterns.
pub open spec fn is_layer_plan(
    plan: LayerPlan,
    entries: Seq<LayerEntryView>,
    patterns: Seq<Seq<char>>,
) -> bool {
    &&& plan.whiteouts@.len() == entries.len()
    &&& plan.extracts@.len() == entries.len()
    &&& forall|i: int|
        0 <= i < entries.len() ==> (#[trigger] plan.whiteouts@[i])@ == whiteout_of(entries[i].path)
    &&& forall|i: int|
        0 <= i < entries.len() ==> (#[trigger] plan.extracts@[i])@ == extract_of(
            entries[i],
            excluded_by(patterns, entries[i].path),
        )
}

/// Whether `i` is where the first text stands that the `glob` crate does not
/// accept.
pub open spec fn is_first_invalid(patterns: Seq<Seq<char>>, i: int) -> bool {
    &&& 0 <= i < patterns.len()
    &&& !glob_valid(patterns[i])
    &&& forall|j: int| 0 <= j < i ==> glob_valid(#[trigger] patterns[j])
}

/// Whether the `glob` crate accepts every one of the texts.
pub open spec fn all_valid(patterns: Seq<Seq<char>>) -> bool {
    forall|i: int| 0 <= i < patterns.len() ==> glob_valid(#[trigger] patterns[i])
}

/// Plans the extraction of layers: which paths are left out, and what each
/// entry does to the tree.
#[derive(Debug, Clone)]
pub struct LayerExtractor {
    exclude_patterns: Vec<String>,
}

impl LayerExtractor {
    /// The patterns of the paths that are left out.
    pub closed spec fn patterns(&self) -> Seq<Seq<char>> {
        texts(self.exclude_patterns@)
    }

    /// An extractor that leaves nothing out.
    pub fn new() -> (extractor: Self)
        ensures
            extractor.patterns() == Seq::<Seq<char>>::empty(),
    {
        let extractor = LayerExtractor { exclude_patterns: Vec::new() };
        assert(extractor.patterns() =~= Seq::<Seq<char>>::empty());
        extractor
    }

    /// Adds patterns of paths to leave out. A text that is no pattern is
    /// refused at once, and nothing is extracted with it.
    pub fn with_excludes(self, patterns: &[&str]) -> (result: Result<Self, BuilderError>)
        ensures
            all_valid(slice_texts(patterns@)) ==> (result matches Ok(extractor)
                && extractor.patterns() == self.patterns() + slice_texts(patterns@)),
            !all_valid(slice_texts(patterns@)) ==> (result matches Err(
                BuilderError::LayerExtraction(detail),
            ) && exists|i: int|
                is_first_invalid(slice_texts(patterns@), i) && detail@ == "Invalid glob pattern: "@
                    + slice_texts(patterns@)[i]),
    {
        let mut extractor = self;
        let mut i: usize = 0;
        assert(self.patterns() + slice_texts(patterns@.take(0)) =~= self.patterns());
        while i < patterns.len()
            invariant
                i <= patterns.len(),
                all_valid(slice_texts(patterns@.take(i as int))),
                extractor.patterns() == self.patterns() + slice_texts(patterns@.take(i as int)),
            decreases patterns.len() - i,
        {
            let pattern = patterns[i];
            if !pattern_is_valid(pattern) {
                let mut detail = String::from_str("Invalid glob pattern: ");
                detail.append(pattern);
                proof {
                    let given = slice_texts(patterns@);
                    assert(!glob_valid(given[i as int]));
                    assert forall|j: int| 0 <= j < i implies glob_valid(#[trigger] given[j]) by {
                        assert(given[j] == slice_texts(patterns@.take(i as int))[j]);
                    }
                    assert(is_first_invalid(given, i as int));
                }
                return Err(BuilderError::LayerExtraction(detail));
            }
            let ghost before = extractor.exclude_patterns@;
            extractor.exclude_patterns.push(String::from_str(pattern));
            proof {
                let next = slice_texts(patterns@.take(i + 1));
                assert(next =~= slice_texts(patterns@.take(i as int)).push(pattern@));
                assert(texts(extractor.exclude_patterns@) =~= texts(before).push(
                    pattern@,
                ));
                assert(extractor.patterns() =~= self.patterns() + next);
                assert forall|j: int| 0 <= j < next.len() implies glob_valid(#[trigger] next[j]) by {
                    if j < i {
                        assert(next[j] == slice_texts(patterns@.take(i as int))[j]);
                    }
                }
            }
            i += 1;
        }
        assert(patterns@.take(i as int) =~= patterns@);
        Ok(extractor)
    }

    /// Whether `path` is left out: one of the patterns matches it.
    pub fn should_exclude(&self, path: &[u8]) -> (excluded: bool)
        ensures
            excluded == excluded_by(self.patterns(), path@),
    {
        let text = lossy_text_of(path);
        let mut i: usize = 0;
        while i < self.exclude_patterns.len()
            invariant
                i <= self.exclude_patterns.len(),
                text@ == lossy_text(path@),
                forall|j: int| 0 <= j < i ==> !glob_match(#[trigger] self.patterns()[j], text@),
            decreases self.exclude_patterns.len() - i,
        {
            if pattern_matches(self.exclude_patterns[i].as_str(), text.as_str()) {
                assert(glob_match(self.patterns()[i as int], lossy_text(path@)));
                return true;
            }
            i += 1;
        }
        false
    }

    /// The plan for a layer with these entries.
    pub fn plan_entries(&self, entries: &Vec<LayerEntry>) -> (plan: LayerPlan)
        ensures
            is_layer_plan(plan, entry_views(entries@), self.patterns()),
    {
        let mut whiteouts: Vec<WhiteoutAction> = Vec::new();
        let mut extracts: Vec<ExtractAction> = Vec::new();
        let mut i: usize = 0;
        while i < entries.len()
            invariant
                i <= entries.len(),
                whiteouts@.len() == i,
                extracts@.len() == i,
                forall|j: int|
                    0 <= j < i ==> (#[trigger] whiteouts@[j])@ == whiteout_of(entries@[j].path@),
                forall|j: int|
                    0 <= j < i ==> (#[trigger] extracts@[j])@ == extract_of(
                        entries@[j]@,
                        excluded_by(self.patterns(), entries@[j].path@),
                    ),
            decreases entries.len() - i,
        {
            let entry = &entries[i];
            whiteouts.push(whiteout_action(entry.path.as_slice()));
            let excluded = self.should_exclude(entry.path.as_slice());
            extracts.push(extract_action(entry, excluded));
            i += 1;
        }
        LayerPlan { whiteouts, extracts }
    }

    /// What listing a layer came to, as this library reports it: the plan for
    /// its entries, or a failed extraction with the reader's words.
    pub fn plan_listed(&self, outcome: Result<Vec<LayerEntry>, std::io::Error>) -> (result: Result<
        LayerPlan,
        BuilderError,
    >)
        ensures
            match outcome {
                Ok(entries) => result matches Ok(plan) && is_layer_plan(
                    plan,
                    entry_views(entries@),
                    self.patterns(),
                ),
                Err(_) => result matches Err(BuilderError::LayerExtraction(_)),
            },
    {
        match outcome {
            Ok(entries) => Ok(self.plan_entries(&entries)),
            Err(error) => Err(
                BuilderError::LayerExtraction(crate::compress::io_error_text(&error)),
            ),
        }
    }

    /// Reads one layer, a gzipped tar, and plans its extraction. A layer that
    /// cannot be read is a failed extraction.
    pub fn extract_layer(&self, layer_data: &[u8]) -> (result: Result<LayerPlan, BuilderError>)
        ensures
            match layer_listing(layer_data@) {
                Some(entries) => result matches Ok(plan) && is_layer_plan(
                    plan,
                    entries,
                    self.patterns(),
                ),
                None => result matches Err(BuilderError::LayerExtraction(_)),
            },
    {
        self.plan_listed(list_layer(layer_data))
    }

    /// Plans the extraction of all layers, from the base upwards: one plan
    /// for each layer, to be carried out in this order. The first layer that
    /// cannot be read fails the whole.
    pub fn extract_all_layers(&self, layers: &[Vec<u8>]) -> (result: Result<
        Vec<LayerPlan>,
        BuilderError,
    >)
        ensures
            (forall|i: int| 0 <= i < layers@.len() ==> layer_listing(#[trigger] layers@[i]@) is Some)
                <==> result is Ok,
            result matches Err(error) ==> error is LayerExtraction,
            result matches Ok(plans) ==> plans@.len() == layers@.len() && forall|i: int|
                0 <= i < layers@.len() ==> is_layer_plan(
                    #[trigger] plans@[i],
                    layer_listing(layers@[i]@).unwrap(),
                    self.patterns(),
                ),
    {
        let mut plans: Vec<LayerPlan> = Vec::new();
        let mut i: usize = 0;
        while i < layers.len()
            invariant
                i <= layers.len(),
                plans@.len() == i,
                forall|j: int| 0 <= j < i ==> layer_listing(#[trigger] layers@[j]@) is Some,
                forall|j: int|
                    0 <= j < i ==> is_layer_plan(
                        #[trigger] plans@[j],
                        layer_listing(layers@[j]@).unwrap(),
                        self.patterns(),
                    ),
            decreases layers.len() - i,
        {
            match self.extract_layer(layers[i].as_slice()) {
                Ok(plan) => {
                    plans.push(plan);
                },
                Err(error) => {
                    assert(layer_listing(layers@[i as int]@) is None);
                    return Err(error);
                },
            }
            i += 1;
        }
        Ok(plans)
    }
}

impl Default for LayerExtractor {
    fn default() -> (extractor: Self)
        ensures
            extractor.patterns() == Seq::<Seq<char>>::empty(),
    {
        LayerExtractor::new()
    }
}

} // verus!
