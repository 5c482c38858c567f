//! The remediation plan: which sub-operation runs on which path, in what
//! order.

use vstd::prelude::*;

verus! {

/// The three repair sub-operations, in the order they run for each path.
/// Each applies recursively to the whole tree under the path.
#[derive(Clone, Copy, Debug, PartialEq, Eq, Structural)]
pub enum StepKind {
    /// Change the tree's ownership to the remediation target user, leaving
    /// the group unchanged.  Runs through the host's privilege-escalation
    /// mechanism, since the process need not own the path yet.
    ChangeOwner,
    /// Remove group write permission from the tree.
    StripGroupWrite,
    /// Remove other/world write permission from the tree.
    StripOtherWrite,
}

/// One planned action: a sub-operation applied to one listed path.
pub struct PlanStep {
    pub kind: StepKind,
    pub path: Seq<u8>,
}

/// The three actions planned for one path: ownership repair first, then the
/// two permission strips, which assume the ownership repair already
/// succeeded.
pub open spec fn step_triple(path: Seq<u8>) -> Seq<PlanStep> {
    seq![
        PlanStep { kind: StepKind::ChangeOwner, path },
        PlanStep { kind: StepKind::StripGroupWrite, path },
        PlanStep { kind: StepKind::StripOtherWrite, path },
    ]
}

/// Every action of a remediation run over the listed paths, in execution
/// order: the paths in listed order, three actions each.
pub open spec fn plan_of(paths: Seq<Seq<u8>>) -> Seq<PlanStep>
    decreases paths.len(),
{
    if paths.len() == 0 {
        seq![]
    } else {
        step_triple(paths[0]) + plan_of(paths.drop_first())
    }
}

/// An empty problem list plans no action at all: with nothing to fix, a run
/// touches nothing.
pub proof fn lemma_empty_plan()
    ensures
        plan_of(Seq::<Seq<u8>>::empty()) == Seq::<PlanStep>::empty(),
{
    assert(plan_of(Seq::<Seq<u8>>::empty()) =~= Seq::<PlanStep>::empty());
}

/// Remediation asks the same of the host every time: the plan is a
/// function of the listed paths alone, so a second run over the same
/// listing plans exactly the same actions in the same order.  Whether
/// repeating them changes anything on disk is the host's affair; the
/// commands behind the three sub-operations change nothing on a tree that
/// is already owned and stripped.
pub proof fn lemma_rerun_plans_same(first: Seq<Seq<u8>>, second: Seq<Seq<u8>>)
    requires
        first == second,
    ensures
        plan_of(first) == plan_of(second),
{
}

pub proof fn lemma_plan_len(paths: Seq<Seq<u8>>)
    ensures
        plan_of(paths).len() == 3 * paths.len(),
    decreases paths.len(),
{
    if paths.len() > 0 {
        lemma_plan_len(paths.drop_first());
    }
}

/// For every listed path the plan holds exactly its three sub-operations,
/// at consecutive positions: ownership repair first, then the group-write
/// strip, then the other-write strip.  The later steps can therefore count
/// on the ownership step having already succeeded, and every listed path
/// gets reowned and has both write bits stripped, recursively.
pub proof fn lemma_path_fully_remediated(paths: Seq<Seq<u8>>, i: int)
    requires
        0 <= i < paths.len(),
    ensures
        plan_of(paths).len() == 3 * paths.len(),
        plan_of(paths)[3 * i] == (PlanStep { kind: StepKind::ChangeOwner, path: paths[i] }),
        plan_of(paths)[3 * i + 1] == (PlanStep {
            kind: StepKind::StripGroupWrite,
            path: paths[i],
        }),
        plan_of(paths)[3 * i + 2] == (PlanStep {
            kind: StepKind::StripOtherWrite,
            path: paths[i],
        }),
    decreases i,
{
    lemma_plan_len(paths);
    lemma_plan_len(paths.drop_first());
    if i == 0 {
    } else {
        lemma_path_fully_remediated(paths.drop_first(), i - 1);
    }
}

/// Actions are grouped by path, in listed order: the action at plan
/// position `q` belongs to the path at index `q / 3`.  Every action for a
/// later path therefore stands at a later position, so a run that stops at
/// some position has done nothing to any path whose actions all lie beyond
/// it.
pub proof fn lemma_plan_grouped_by_path(paths: Seq<Seq<u8>>, q: int)
    requires
        0 <= q < 3 * paths.len(),
    ensures
        0 <= q / 3 < paths.len(),
        plan_of(paths)[q] == step_triple(paths[q / 3])[q % 3],
{
    vstd::arithmetic::div_mod::lemma_fundamental_div_mod(q, 3);
    lemma_path_fully_remediated(paths, q / 3);
}

} // verus!
