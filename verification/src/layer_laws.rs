//! What the plan of a layer does to the tree, on a model of the tree: the set
//! of paths that are there. Paths are compared as they are written.

use crate::layer::{
    excluded_by, extract_of, is_layer_plan, is_marker, opaque_marker, whiteout_of, whiteout_prefix,
    ExtractView, LayerEntryView, LayerPlan, WhiteoutView,
};
use crate::paths::{
    basename, is_below, join, last_slash, lemma_last_slash_bounds, parent, staged, trim_slashes,
    SLASH,
};
use vstd::prelude::*;

verus! {

/// Whether a whiteout action takes `path` away: clearing a directory takes
/// what lies below it, removing a path takes the path and what lies below it.
pub open spec fn removed_by(action: WhiteoutView, path: Seq<u8>) -> bool {
    match action {
        WhiteoutView::Keep => false,
        WhiteoutView::ClearDirectory(dir) => is_below(path, dir),
        WhiteoutView::Remove(target) => path == target || is_below(path, target),
    }
}

/// Whether an extract action can bring `path` into the tree: it is the path
/// of the action, unless only the directory is made, or a directory above it.
pub open spec fn touched_by(action: ExtractView, path: Seq<u8>) -> bool {
    match action {
        ExtractView::Skip => false,
        ExtractView::Unpack { path: at } => path == at || (path.len() > 0 && is_below(at, path)),
        ExtractView::HardLink { path: at, .. } => path == at || (path.len() > 0 && is_below(
            at,
            path,
        )),
        ExtractView::Symlink { path: at, .. } => path == at || (path.len() > 0 && is_below(at, path)),
        ExtractView::ParentOnly { path: at } => path.len() > 0 && is_below(at, path),
    }
}

/// The tree after one whiteout action.
pub open spec fn after_whiteout(tree: Set<Seq<u8>>, action: WhiteoutView) -> Set<Seq<u8>> {
    tree.filter(|path: Seq<u8>| !removed_by(action, path))
}

/// The most that the tree can hold after one extract action: a link whose
/// source is missing brings nothing.
pub open spec fn after_extract(tree: Set<Seq<u8>>, action: ExtractView) -> Set<Seq<u8>> {
    Set::new(|path: Seq<u8>| tree.contains(path) || touched_by(action, path))
}

/// The tree after the whiteout actions, in their order.
pub open spec fn after_whiteouts(tree: Set<Seq<u8>>, actions: Seq<WhiteoutView>) -> Set<Seq<u8>>
    decreases actions.len(),
{
    if actions.len() == 0 {
        tree
    } else {
        after_whiteout(after_whiteouts(tree, actions.drop_last()), actions.last())
    }
}

/// The most that the tree can hold after the extract actions, in their order.
pub open spec fn after_extracts(tree: Set<Seq<u8>>, actions: Seq<ExtractView>) -> Set<Seq<u8>>
    decreases actions.len(),
{
    if actions.len() == 0 {
        tree
    } else {
        after_extract(after_extracts(tree, actions.drop_last()), actions.last())
    }
}

/// The most that the tree can hold after a layer: all its whiteout actions
/// first, then its extract actions.
pub open spec fn after_layer(
    tree: Set<Seq<u8>>,
    whiteouts: Seq<WhiteoutView>,
    extracts: Seq<ExtractView>,
) -> Set<Seq<u8>> {
    after_extracts(after_whiteouts(tree, whiteouts), extracts)
}

/// The whiteout actions of a plan, as contracts see them.
pub open spec fn whiteout_views(plan: LayerPlan) -> Seq<WhiteoutView> {
    plan.whiteouts@.map_values(|action: crate::layer::WhiteoutAction| action@)
}

/// The extract actions of a plan, as contracts see them.
pub open spec fn extract_views(plan: LayerPlan) -> Seq<ExtractView> {
    plan.extracts@.map_values(|action: crate::layer::ExtractAction| action@)
}

/// What is left after the whiteout actions was there before, and none of the
/// actions takes it away.
pub proof fn lemma_after_whiteouts(
    tree: Set<Seq<u8>>,
    actions: Seq<WhiteoutView>,
    path: Seq<u8>,
)
    requires
        after_whiteouts(tree, actions).contains(path),
    ensures
        tree.contains(path),
        forall|i: int| 0 <= i < actions.len() ==> !removed_by(#[trigger] actions[i], path),
    decreases actions.len(),
{
    if actions.len() > 0 {
        let shorter = actions.drop_last();
        lemma_after_whiteouts(tree, shorter, path);
        assert forall|i: int| 0 <= i < actions.len() implies !removed_by(
            #[trigger] actions[i],
            path,
        ) by {
            if i < shorter.len() {
                assert(shorter[i] == actions[i]);
            }
        }
    }
}

/// What is there after the extract actions was there before, or one of the
/// actions can have brought it.
pub proof fn lemma_after_extracts(tree: Set<Seq<u8>>, actions: Seq<ExtractView>, path: Seq<u8>)
    requires
        after_extracts(tree, actions).contains(path),
    ensures
        tree.contains(path) || exists|j: int|
            0 <= j < actions.len() && touched_by(#[trigger] actions[j], path),
    decreases actions.len(),
{
    if actions.len() > 0 {
        let shorter = actions.drop_last();
        if touched_by(actions.last(), path) {
            assert(touched_by(actions[actions.len() - 1], path));
        } else {
            lemma_after_extracts(tree, shorter, path);
            if !tree.contains(path) {
                let j = choose|j: int| 0 <= j < shorter.len() && touched_by(#[trigger] shorter[j], path);
                assert(actions[j] == shorter[j]);
            }
        }
    }
}

/// A layer hides what its markers name: a path that one of the layer's
/// whiteout actions takes away is in the tree after the layer only if an
/// entry of this same layer can have brought it. Nothing of the layers below
/// is left there.
pub proof fn law_whiteouts_hide_lower_layers(
    tree: Set<Seq<u8>>,
    whiteouts: Seq<WhiteoutView>,
    extracts: Seq<ExtractView>,
    i: int,
    path: Seq<u8>,
)
    requires
        0 <= i < whiteouts.len(),
        removed_by(whiteouts[i], path),
        after_layer(tree, whiteouts, extracts).contains(path),
    ensures
        exists|j: int| 0 <= j < extracts.len() && touched_by(#[trigger] extracts[j], path),
{
    lemma_after_extracts(after_whiteouts(tree, whiteouts), extracts, path);
    if after_whiteouts(tree, whiteouts).contains(path) {
        lemma_after_whiteouts(tree, whiteouts, path);
    }
}

/// A layer only takes away and brings: what is in the tree after it was there
/// before, or an entry of the layer can have brought it.
pub proof fn law_layer_adds_only_its_entries(
    tree: Set<Seq<u8>>,
    whiteouts: Seq<WhiteoutView>,
    extracts: Seq<ExtractView>,
    path: Seq<u8>,
)
    requires
        after_layer(tree, whiteouts, extracts).contains(path),
    ensures
        tree.contains(path) || exists|j: int|
            0 <= j < extracts.len() && touched_by(#[trigger] extracts[j], path),
{
    lemma_after_extracts(after_whiteouts(tree, whiteouts), extracts, path);
    if after_whiteouts(tree, whiteouts).contains(path) {
        lemma_after_whiteouts(tree, whiteouts, path);
    }
}

/// The last component and the directory of a name put into a directory: the
/// name, and the directory. The name has to be one component, not empty and
/// without a slash.
pub proof fn lemma_join_parts(dir: Seq<u8>, name: Seq<u8>)
    requires
        name.len() > 0,
        forall|k: int| 0 <= k < name.len() ==> name[k] != SLASH,
    ensures
        basename(join(dir, name)) == name,
        parent(join(dir, name)) == dir,
{
    let path = join(dir, name);
    assert(path.last() == name.last());
    assert(trim_slashes(path) == path);
    lemma_last_slash_bounds(path);
    if dir.len() == 0 {
        assert(path == name);
        if last_slash(path) >= 0 {
            assert(name[last_slash(path)] == SLASH);
        }
        assert(last_slash(path) == -1);
        assert(basename(path) =~= name);
        assert(parent(path) =~= dir);
    } else {
        let at = dir.len() as int;
        assert(path[at] == SLASH);
        if last_slash(path) > at {
            assert(path[last_slash(path)] == name[last_slash(path) - at - 1]);
        }
        assert(last_slash(path) == at);
        assert(basename(path) =~= name);
        assert(parent(path) =~= dir);
    }
}

/// A marker `.wh.<name>` in a directory removes `<name>` in that directory.
pub proof fn law_whiteout_marker_names_its_target(dir: Seq<u8>, name: Seq<u8>)
    requires
        forall|k: int| 0 <= k < name.len() ==> name[k] != SLASH,
        whiteout_prefix() + name != opaque_marker(),
    ensures
        whiteout_of(join(dir, whiteout_prefix() + name)) == WhiteoutView::Remove(
            staged(join(dir, name)),
        ),
        is_marker(join(dir, whiteout_prefix() + name)),
{
    let marker = whiteout_prefix() + name;
    assert forall|k: int| 0 <= k < marker.len() implies marker[k] != SLASH by {
        if k >= 4 {
            assert(marker[k] == name[k - 4]);
        }
    }
    lemma_join_parts(dir, marker);
    assert(marker.subrange(0, 4) =~= whiteout_prefix());
    assert(marker.subrange(4, marker.len() as int) =~= name);
}

/// The marker `.wh..wh..opq` in a directory empties that directory.
pub proof fn law_opaque_marker_names_its_directory(dir: Seq<u8>)
    ensures
        whiteout_of(join(dir, opaque_marker())) == WhiteoutView::ClearDirectory(staged(dir)),
        is_marker(join(dir, opaque_marker())),
{
    lemma_join_parts(dir, opaque_marker());
    assert(opaque_marker().subrange(0, 4) =~= whiteout_prefix());
}

/// In the plan of a layer, a marker is never put into the tree, and neither
/// is a path that one of the patterns matches.
pub proof fn law_markers_and_excluded_are_skipped(
    plan: LayerPlan,
    entries: Seq<LayerEntryView>,
    patterns: Seq<Seq<char>>,
    i: int,
)
    requires
        is_layer_plan(plan, entries, patterns),
        0 <= i < entries.len(),
        is_marker(entries[i].path) || excluded_by(patterns, entries[i].path),
    ensures
        plan.extracts@[i]@ == ExtractView::Skip,
        forall|path: Seq<u8>| !touched_by(plan.extracts@[i]@, path),
{
}

/// The plan of a layer under more patterns puts no entry into the tree that
/// the plan under fewer patterns skips.
pub proof fn law_more_patterns_skip_more(
    entry: LayerEntryView,
    fewer: Seq<Seq<char>>,
    more: Seq<Seq<char>>,
)
    requires
        extract_of(entry, excluded_by(fewer, entry.path)) == ExtractView::Skip,
    ensures
        extract_of(entry, excluded_by(fewer + more, entry.path)) == ExtractView::Skip,
{
    if excluded_by(fewer, entry.path) {
        let i = choose|i: int|
            0 <= i < fewer.len() && crate::layer::glob_match(
                #[trigger] fewer[i],
                crate::layer::lossy_text(entry.path),
            );
        assert((fewer + more)[i] == fewer[i]);
    }
}

/// Where a layer holds the marker `.wh.<name>` in a directory, the tree
/// after the layer holds `<name>` in that directory, or anything below it,
/// only if an entry of this same layer can have brought it: what the layers
/// below had there is gone.
pub proof fn law_whiteout_marker_hides(
    tree: Set<Seq<u8>>,
    plan: LayerPlan,
    entries: Seq<LayerEntryView>,
    patterns: Seq<Seq<char>>,
    i: int,
    dir: Seq<u8>,
    name: Seq<u8>,
    path: Seq<u8>,
)
    requires
        is_layer_plan(plan, entries, patterns),
        0 <= i < entries.len(),
        entries[i].path == join(dir, whiteout_prefix() + name),
        forall|k: int| 0 <= k < name.len() ==> name[k] != SLASH,
        whiteout_prefix() + name != opaque_marker(),
        path == staged(join(dir, name)) || is_below(path, staged(join(dir, name))),
        after_layer(tree, whiteout_views(plan), extract_views(plan)).contains(path),
    ensures
        exists|j: int|
            0 <= j < entries.len() && touched_by((#[trigger] plan.extracts@[j])@, path),
{
    law_whiteout_marker_names_its_target(dir, name);
    assert(whiteout_views(plan)[i] == plan.whiteouts@[i]@);
    law_whiteouts_hide_lower_layers(tree, whiteout_views(plan), extract_views(plan), i, path);
    let j = choose|j: int|
        0 <= j < extract_views(plan).len() && touched_by(#[trigger] extract_views(plan)[j], path);
    assert(extract_views(plan)[j] == plan.extracts@[j]@);
}

/// Where a layer holds the marker `.wh..wh..opq` in a directory, the tree
/// after the layer holds below that directory only what entries of this same
/// layer can have brought: nothing of the layers below is left there.
pub proof fn law_opaque_marker_hides(
    tree: Set<Seq<u8>>,
    plan: LayerPlan,
    entries: Seq<LayerEntryView>,
    patterns: Seq<Seq<char>>,
    i: int,
    dir: Seq<u8>,
    path: Seq<u8>,
)
    requires
        is_layer_plan(plan, entries, patterns),
        0 <= i < entries.len(),
        entries[i].path == join(dir, opaque_marker()),
        is_below(path, staged(dir)),
        after_layer(tree, whiteout_views(plan), extract_views(plan)).contains(path),
    ensures
        exists|j: int|
            0 <= j < entries.len() && touched_by((#[trigger] plan.extracts@[j])@, path),
{
    law_opaque_marker_names_its_directory(dir);
    assert(whiteout_views(plan)[i] == plan.whiteouts@[i]@);
    law_whiteouts_hide_lower_layers(tree, whiteout_views(plan), extract_views(plan), i, path);
    let j = choose|j: int|
        0 <= j < extract_views(plan).len() && touched_by(#[trigger] extract_views(plan)[j], path);
    assert(extract_views(plan)[j] == plan.extracts@[j]@);
}

} // verus!
