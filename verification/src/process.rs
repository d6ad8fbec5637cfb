//! Several modules in one process: each holds a slot of its own, and each
//! synchronization scans what the modules of the process answer.

use crate::failure::lookup_is_fatal;
use crate::laws::{
    lemma_first_decisive, lemma_first_instance_wins, lemma_first_module_initializes,
    lemma_scan_keeps_flag,
};
use crate::scan::{first_decisive, ProbeOutcome, SlotView};
use std::sync::Arc;
use vstd::prelude::*;

verus! {

/// No module of the process is in the middle of a scan.
pub open spec fn all_at_rest<T>(modules: Seq<SlotView<T>>) -> bool {
    forall|i: int| 0 <= i < modules.len() ==> (#[trigger] modules[i]).at_rest()
}

/// Any two modules that hold an instance hold the same one.
pub open spec fn agree<T>(modules: Seq<SlotView<T>>) -> bool {
    forall|i: int, j: int|
        0 <= i < modules.len() && 0 <= j < modules.len() && (#[trigger] modules[i]).instance
            is Some && (#[trigger] modules[j]).instance is Some ==> modules[i].instance
            == modules[j].instance
}

/// What module `i` of the process answers when it is probed.
pub open spec fn answer_of<T>(modules: Seq<SlotView<T>>, i: int) -> ProbeOutcome<T> {
    ProbeOutcome::Answered(modules[i].probe())
}

/// Whether `outcome` is what an enumeration of the process can yield for one
/// library: the answer of a module that declares the singleton, or the
/// failed lookup in a library that does not.
pub open spec fn heard_from<T>(modules: Seq<SlotView<T>>, outcome: ProbeOutcome<T>) -> bool {
    ||| outcome matches ProbeOutcome::LookupFailed(err) && !lookup_is_fatal(err)
    ||| exists|i: int| 0 <= i < modules.len() && outcome == #[trigger] answer_of(modules, i)
}

/// Whether `heard` is what an enumeration of the process can yield, in
/// whatever order the platform lists its libraries.
pub open spec fn may_hear<T>(modules: Seq<SlotView<T>>, heard: Seq<ProbeOutcome<T>>) -> bool {
    forall|k: int| 0 <= k < heard.len() ==> heard_from(modules, #[trigger] heard[k])
}

/// Whether the enumeration reached every module of the process.
pub open spec fn hears_all<T>(modules: Seq<SlotView<T>>, heard: Seq<ProbeOutcome<T>>) -> bool {
    forall|i: int|
        0 <= i < modules.len() ==> exists|k: int|
            0 <= k < heard.len() && #[trigger] heard[k] == #[trigger] answer_of(modules, i)
}

/// The answers of the modules in the order in which the process holds them.
pub open spec fn answers<T>(modules: Seq<SlotView<T>>) -> Seq<ProbeOutcome<T>> {
    Seq::new(modules.len(), |i: int| answer_of(modules, i))
}

/// One synchronization in a process.
pub struct Step<T> {
    /// The module that synchronizes.
    pub who: int,
    /// What its enumeration of the process yields.
    pub heard: Seq<ProbeOutcome<T>>,
    /// What its initializer makes if it is run.
    pub fresh: Arc<T>,
}

/// The process while module `who` scans it.
pub open spec fn during_scan<T>(modules: Seq<SlotView<T>>, who: int) -> Seq<SlotView<T>> {
    modules.update(who, modules[who].begin())
}

/// Whether `step` can happen in the process: its module exists, what it
/// hears is what the process answers while that module scans, and it hears
/// every module.
pub open spec fn can_happen<T>(modules: Seq<SlotView<T>>, step: Step<T>) -> bool {
    &&& 0 <= step.who < modules.len()
    &&& may_hear(during_scan(modules, step.who), step.heard)
    &&& hears_all(during_scan(modules, step.who), step.heard)
}

/// The process after `step`.
pub open spec fn after_sync<T>(modules: Seq<SlotView<T>>, step: Step<T>) -> Seq<SlotView<T>> {
    modules.update(step.who, modules[step.who].sync(step.heard, step.fresh))
}

/// Whether the synchronization of `step` runs its module's initializer.
pub open spec fn sync_initializes<T>(modules: Seq<SlotView<T>>, step: Step<T>) -> bool {
    modules[step.who].begin().scan(step.heard).needs_initializer()
}

/// The process after `steps`, one after the other.
pub open spec fn after_syncs<T>(modules: Seq<SlotView<T>>, steps: Seq<Step<T>>) -> Seq<
    SlotView<T>,
>
    decreases steps.len(),
{
    if steps.len() == 0 {
        modules
    } else {
        after_sync(after_syncs(modules, steps.drop_last()), steps.last())
    }
}

/// Whether `steps` can happen one after the other, starting in `modules`.
pub open spec fn can_all_happen<T>(modules: Seq<SlotView<T>>, steps: Seq<Step<T>>) -> bool
    decreases steps.len(),
{
    steps.len() == 0 || (can_all_happen(modules, steps.drop_last()) && can_happen(
        after_syncs(modules, steps.drop_last()),
        steps.last(),
    ))
}

/// Whether module `i` synchronizes in the course of `steps`.
pub open spec fn synchronizes<T>(steps: Seq<Step<T>>, i: int) -> bool {
    exists|k: int| 0 <= k < steps.len() && (#[trigger] steps[k]).who == i
}

/// The modules answering in the order in which the process holds them is an
/// enumeration that the process can yield, and it reaches every module.
pub proof fn lemma_answers_are_heard<T>(modules: Seq<SlotView<T>>)
    ensures
        may_hear(modules, answers(modules)),
        hears_all(modules, answers(modules)),
{
    let heard = answers(modules);
    assert forall|k: int| 0 <= k < heard.len() implies heard_from(modules, #[trigger] heard[k]) by {
        assert(heard[k] == answer_of(modules, k));
    }
    assert forall|i: int| 0 <= i < modules.len() implies exists|k: int|
        0 <= k < heard.len() && #[trigger] heard[k] == #[trigger] answer_of(modules, i) by {
        assert(heard[i] == answer_of(modules, i));
    }
}

/// One synchronization keeps the process in agreement. If no module is in
/// the middle of a scan and all instances held are one and the same, then
/// after a module has synchronized this is still so, the module holds an
/// instance, the synchronization has succeeded, and no other module has
/// changed: whatever the order of the enumeration, and whichever libraries
/// without the singleton stand in it. The instance that the module ends
/// with is the one that the process held before, if it held one; the
/// initializer is run exactly when no module of the process held an
/// instance.
pub proof fn lemma_sync_keeps_agreement<T>(modules: Seq<SlotView<T>>, step: Step<T>)
    requires
        all_at_rest(modules),
        agree(modules),
        can_happen(modules, step),
    ensures
        after_sync(modules, step).len() == modules.len(),
        all_at_rest(after_sync(modules, step)),
        agree(after_sync(modules, step)),
        after_sync(modules, step)[step.who].instance is Some,
        modules[step.who].sync_verdict(step.heard) is Ok,
        forall|i: int|
            0 <= i < modules.len() && i != step.who ==> after_sync(modules, step)[i]
                == #[trigger] modules[i],
        forall|i: int|
            0 <= i < modules.len() && (#[trigger] modules[i]).instance is Some ==> after_sync(
                modules,
                step,
            )[step.who].instance == modules[i].instance,
        sync_initializes(modules, step) <==> forall|i: int|
            0 <= i < modules.len() ==> (#[trigger] modules[i]).instance is None,
        sync_initializes(modules, step) ==> after_sync(modules, step)[step.who].instance == Some(
            step.fresh,
        ),
{
    let who = step.who;
    let heard = step.heard;
    let scanning = during_scan(modules, who);
    let after = after_sync(modules, step);
    lemma_scan_keeps_flag(modules[who].begin(), heard);
    assert(answer_of(scanning, who).offered() is None);
    assert forall|k: int| 0 <= k < heard.len() && (#[trigger] heard[k]).is_decisive() implies exists|
        i: int,
    |
        0 <= i < modules.len() && i != who && modules[i].instance is Some && heard[k]
            == ProbeOutcome::Answered(modules[i].instance) by {
        assert(heard_from(scanning, heard[k]));
        let i = choose|i: int| 0 <= i < scanning.len() && heard[k] == #[trigger] answer_of(scanning, i);
        assert(i != who);
        assert(scanning[i] == modules[i]);
    }
    let k = first_decisive(heard, heard.len() as int);
    lemma_first_decisive(heard, heard.len() as int);
    if k < heard.len() {
        let i = choose|i: int|
            0 <= i < modules.len() && i != who && modules[i].instance is Some && heard[k]
                == ProbeOutcome::Answered(modules[i].instance);
        lemma_first_instance_wins(modules[who], heard, k, step.fresh);
        assert(after[who].instance == modules[i].instance);
        assert forall|a: int, b: int|
            0 <= a < after.len() && 0 <= b < after.len() && (#[trigger] after[a]).instance
                is Some && (#[trigger] after[b]).instance is Some implies after[a].instance
            == after[b].instance by {
            assert(a != who ==> after[a] == modules[a]);
            assert(b != who ==> after[b] == modules[b]);
        }
    } else {
        lemma_first_module_initializes(modules[who], heard, step.fresh);
        assert forall|i: int| 0 <= i < modules.len() && i != who implies (#[trigger] modules[i]).instance
            is None by {
            let at = choose|at: int|
                0 <= at < heard.len() && #[trigger] heard[at] == #[trigger] answer_of(scanning, i);
            assert(!heard[at].is_decisive());
            assert(scanning[i] == modules[i]);
        }
        assert forall|a: int, b: int|
            0 <= a < after.len() && 0 <= b < after.len() && (#[trigger] after[a]).instance
                is Some && (#[trigger] after[b]).instance is Some implies after[a].instance
            == after[b].instance by {
            assert(a != who ==> after[a] == modules[a]);
            assert(b != who ==> after[b] == modules[b]);
        }
    }
}

/// First writer wins: a module that synchronizes after another has done so
/// adopts the other's instance and does not run its own initializer.
pub proof fn lemma_later_module_adopts<T>(modules: Seq<SlotView<T>>, first: int, step: Step<T>)
    requires
        all_at_rest(modules),
        agree(modules),
        can_happen(modules, step),
        0 <= first < modules.len(),
        modules[first].instance is Some,
    ensures
        after_sync(modules, step)[step.who].instance == modules[first].instance,
        !sync_initializes(modules, step),
        modules[step.who].sync_verdict(step.heard) is Ok,
{
    lemma_sync_keeps_agreement(modules, step);
}

/// Any run of synchronizations keeps the process in agreement. Start from a
/// process in agreement in which no module is in the middle of a scan: empty
/// slots all round, for one. Let modules synchronize one after the other,
/// in any order and any number of times. Then the process is again at rest
/// and in agreement, every module that has synchronized holds an instance,
/// and so does every module that held one before.
pub proof fn lemma_syncs_keep_agreement<T>(modules: Seq<SlotView<T>>, steps: Seq<Step<T>>)
    requires
        all_at_rest(modules),
        agree(modules),
        can_all_happen(modules, steps),
    ensures
        after_syncs(modules, steps).len() == modules.len(),
        all_at_rest(after_syncs(modules, steps)),
        agree(after_syncs(modules, steps)),
        forall|i: int|
            0 <= i < modules.len() && (#[trigger] modules[i]).instance is Some ==> after_syncs(
                modules,
                steps,
            )[i].instance is Some,
        forall|k: int|
            0 <= k < steps.len() ==> 0 <= (#[trigger] steps[k]).who < modules.len()
                && after_syncs(modules, steps)[steps[k].who].instance is Some,
    decreases steps.len(),
{
    if steps.len() > 0 {
        let earlier = after_syncs(modules, steps.drop_last());
        let end = after_syncs(modules, steps);
        lemma_syncs_keep_agreement(modules, steps.drop_last());
        lemma_sync_keeps_agreement(earlier, steps.last());
        assert forall|i: int| 0 <= i < modules.len() && (#[trigger] modules[i]).instance
            is Some implies end[i].instance is Some by {
            assert(i != steps.last().who ==> end[i] == earlier[i]);
        }
        assert forall|k: int| 0 <= k < steps.len() implies 0 <= (#[trigger] steps[k]).who
            < modules.len() && end[steps[k].who].instance is Some by {
            if k < steps.len() - 1 {
                assert(steps.drop_last()[k] == steps[k]);
                assert(steps[k].who != steps.last().who ==> end[steps[k].who]
                    == earlier[steps[k].who]);
            }
        }
    }
}

/// Single-instance convergence: once every module of the process has
/// synchronized, in whatever order, all of them hold one and the same
/// instance.
pub proof fn lemma_all_modules_share_one_instance<T>(
    modules: Seq<SlotView<T>>,
    steps: Seq<Step<T>>,
)
    requires
        all_at_rest(modules),
        agree(modules),
        can_all_happen(modules, steps),
        forall|i: int| 0 <= i < modules.len() ==> #[trigger] synchronizes(steps, i),
    ensures
        forall|i: int, j: int|
            0 <= i < modules.len() && 0 <= j < modules.len() ==> (#[trigger] after_syncs(
                modules,
                steps,
            )[i]).instance is Some && after_syncs(modules, steps)[i].instance
                == (#[trigger] after_syncs(modules, steps)[j]).instance,
{
    lemma_syncs_keep_agreement(modules, steps);
    let end = after_syncs(modules, steps);
    assert forall|i: int| 0 <= i < modules.len() implies (#[trigger] end[i]).instance is Some by {
        assert(synchronizes(steps, i));
        let k = choose|k: int| 0 <= k < steps.len() && (#[trigger] steps[k]).who == i;
        assert(end[steps[k].who].instance is Some);
    }
}

} // verus!
