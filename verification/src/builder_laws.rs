//! What holds of every staging plan.

use crate::builder::{
    is_report_of, is_staging_plan, staged_path, step_injects, BuildResult, BuilderView,
    StagingStep, EXECUTABLE_MODE,
};
use crate::compress::{encoded, Compression};
use crate::cpio::{archive_bytes, CpioEntry};
use vstd::prelude::*;

verus! {

/// The bit of a mode that lets the owner execute the file.
pub const OWNER_EXECUTE: u32 = 0o100;

/// The index of the last step of `plan` that writes to `path`: the step that
/// decides what is there in the end.
pub open spec fn last_writer(plan: Seq<StagingStep>, path: Seq<char>) -> Option<int>
    decreases plan.len(),
{
    if plan.len() == 0 {
        None
    } else if plan.last().dest() == path {
        Some(plan.len() - 1)
    } else {
        last_writer(plan.drop_last(), path)
    }
}

/// A step that writes to `path`, with no later step that does, is the last
/// writer of `path`.
pub proof fn lemma_last_writer(plan: Seq<StagingStep>, path: Seq<char>, k: int)
    requires
        0 <= k < plan.len(),
        plan[k].dest() == path,
        forall|j: int| k < j < plan.len() ==> (#[trigger] plan[j]).dest() != path,
    ensures
        last_writer(plan, path) == Some(k),
    decreases plan.len(),
{
    if k < plan.len() - 1 {
        lemma_last_writer(plan.drop_last(), path, k);
    }
}

/// The executable mode lets the owner execute the file.
pub proof fn lemma_executable_mode()
    ensures
        EXECUTABLE_MODE & OWNER_EXECUTE != 0,
{
    assert(0o755u32 & 0o100u32 != 0) by (bit_vector);
}

/// Every plan ends by placing `/init`: the last step writes to `init`, no
/// step comes after it, and it sets a mode with the owner's execute bit. So
/// one `init` is there when the plan is through, and it is executable,
/// whatever the image and the injections put there before.
pub proof fn law_init_is_placed_last(plan: Seq<StagingStep>, recipe: BuilderView)
    requires
        is_staging_plan(plan, recipe),
    ensures
        last_writer(plan, "init"@) == Some(plan.len() - 1),
        plan.last().dest() == "init"@,
        plan.last().mode() matches Some(mode) && mode & OWNER_EXECUTE != 0,
        recipe.init_script matches Some(script) ==> plan.last() matches StagingStep::Copy {
            src,
            ..
        } && src@ == script,
        recipe.init_script is None ==> plan.last() is Write,
{
    lemma_executable_mode();
    lemma_last_writer(plan, "init"@, plan.len() - 1);
}

/// An executable injection decides what is at its destination, the path
/// without its leading slash, unless a later injection or `/init` goes to the
/// same path: the step that writes there last copies the injection's source
/// and sets a mode with the owner's execute bit.
pub proof fn law_executable_injection_lands(plan: Seq<StagingStep>, recipe: BuilderView, i: int)
    requires
        is_staging_plan(plan, recipe),
        0 <= i < recipe.inject_files.len(),
        recipe.inject_files[i].executable,
        staged_path(recipe.inject_files[i].dest@) != "init"@,
        forall|j: int|
            i < j < recipe.inject_files.len() ==> staged_path(
                (#[trigger] recipe.inject_files[j]).dest@,
            ) != staged_path(recipe.inject_files[i].dest@),
    ensures
        last_writer(plan, staged_path(recipe.inject_files[i].dest@)) == Some(i),
        step_injects(plan[i], recipe.inject_files[i]),
        plan[i] is Copy,
        plan[i].mode() matches Some(mode) && mode & OWNER_EXECUTE != 0,
{
    lemma_executable_mode();
    let path = staged_path(recipe.inject_files[i].dest@);
    assert(step_injects(plan[i], recipe.inject_files[i]));
    assert forall|j: int| i < j < plan.len() implies (#[trigger] plan[j]).dest() != path by {
        if j < recipe.inject_files.len() {
            assert(step_injects(plan[j], recipe.inject_files[j]));
        } else {
            assert(plan[j] == plan.last());
        }
    }
    lemma_last_writer(plan, path, i);
}

/// A plan has one step for each injection, in the order of the recipe, and
/// one more.
pub proof fn law_plan_follows_recipe(plan: Seq<StagingStep>, recipe: BuilderView, i: int)
    requires
        is_staging_plan(plan, recipe),
        0 <= i < recipe.inject_files.len(),
    ensures
        plan.len() == recipe.inject_files.len() + 1,
        plan[i].dest() == staged_path(recipe.inject_files[i].dest@),
        !recipe.inject_files[i].executable ==> plan[i].mode() is None,
{
    assert(step_injects(plan[i], recipe.inject_files[i]));
}

/// A build without compression writes the archive out as it is, and reports
/// the same size for what it wrote as for the archive.
pub proof fn law_raw_build_reports_equal_sizes(
    report: BuildResult,
    recipe: BuilderView,
    entries: Seq<CpioEntry>,
    output: Seq<u8>,
)
    requires
        recipe.compression == Compression::Raw,
        encoded(archive_bytes(entries), recipe.compression) == Some(output),
        is_report_of(report, recipe, entries, output),
    ensures
        output == archive_bytes(entries),
        report.compressed_size == report.uncompressed_size,
        report.compression == Compression::Raw,
{
}

} // verus!
