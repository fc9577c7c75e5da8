//! The log directory across one `up()` run: reset empties it, then each
//! successfully dispatched follower creates exactly one file of its own.
use vstd::prelude::*;

use crate::plan::FollowerSpec;

verus! {

/// The directory immediately after `up()`'s reset step: empty, whatever
/// stale files a previous run had left in it.
pub open spec fn dir_after_reset() -> Set<Seq<char>> {
    Set::empty()
}

/// The directory contents once the first `count` followers of the plan
/// have been dispatched, where `created[i]` says whether follower `i`
/// managed to create its file.
pub open spec fn dir_after_dispatches(
    plan: Seq<FollowerSpec>,
    created: Seq<bool>,
    count: int,
) -> Set<Seq<char>>
    decreases count,
{
    if count <= 0 {
        dir_after_reset()
    } else {
        let rest = dir_after_dispatches(plan, created, count - 1);
        if count - 1 < plan.len() && count - 1 < created.len() && created[count - 1] {
            rest.insert(plan[count - 1].path@)
        } else {
            rest
        }
    }
}

/// Everything in the directory after a run was put there by one of the
/// run's own followers: each file is the path of some follower of the
/// current plan that created it.
pub proof fn lemma_dir_holds_only_current_files(
    plan: Seq<FollowerSpec>,
    created: Seq<bool>,
    count: int,
    file: Seq<char>,
)
    requires
        dir_after_dispatches(plan, created, count).contains(file),
    ensures
        exists|i: int|
            0 <= i < plan.len() && i < created.len() && created[i] && #[trigger] plan[i].path@
                == file,
    decreases count,
{
    if count > 0 {
        let rest = dir_after_dispatches(plan, created, count - 1);
        if count - 1 < plan.len() && count - 1 < created.len() && created[count - 1] && plan[count
            - 1].path@ == file {
        } else {
            lemma_dir_holds_only_current_files(plan, created, count - 1, file);
        }
    }
}

/// Directory reset: a stale file from a previous run — one whose path no
/// follower of the current plan writes — does not survive `up()`.
pub proof fn lemma_no_stale_file_survives(
    plan: Seq<FollowerSpec>,
    created: Seq<bool>,
    count: int,
    stale: Seq<char>,
)
    requires
        forall|i: int| 0 <= i < plan.len() ==> #[trigger] plan[i].path@ != stale,
    ensures
        !dir_after_dispatches(plan, created, count).contains(stale),
{
    if dir_after_dispatches(plan, created, count).contains(stale) {
        lemma_dir_holds_only_current_files(plan, created, count, stale);
    }
}

} // verus!
