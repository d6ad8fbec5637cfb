//! What holds of every discovery scan.

use crate::failure::{lookup_failure_of, symbol_absent, DiscoveryError};
use crate::scan::{first_decisive, ProbeOutcome, ScanControl, SlotView};
use std::sync::Arc;
use vstd::prelude::*;

verus! {

/// A slot that is not scanning ignores every answer: once a scan has met a
/// decisive outcome, nothing that a later module says changes the slot.
pub proof fn lemma_scan_ignored_when_not_scanning<T>(
    slot: SlotView<T>,
    outcomes: Seq<ProbeOutcome<T>>,
)
    requires
        !slot.scanning(),
    ensures
        slot.scan(outcomes) == slot,
    decreases outcomes.len(),
{
    if outcomes.len() > 0 {
        lemma_scan_ignored_when_not_scanning(slot, outcomes.drop_last());
    }
}

/// Scanning a list of answers is scanning its first part and then the rest.
pub proof fn lemma_scan_split<T>(
    slot: SlotView<T>,
    first: Seq<ProbeOutcome<T>>,
    rest: Seq<ProbeOutcome<T>>,
)
    ensures
        slot.scan(first + rest) == slot.scan(first).scan(rest),
    decreases rest.len(),
{
    if rest.len() == 0 {
        assert(first + rest =~= first);
    } else {
        lemma_scan_split(slot, first, rest.drop_last());
        assert((first + rest).drop_last() =~= first + rest.drop_last());
        assert((first + rest).last() == rest.last());
    }
}

/// A scan changes neither the symbol nor the flag that silences the
/// module's own probe.
pub proof fn lemma_scan_keeps_flag<T>(slot: SlotView<T>, outcomes: Seq<ProbeOutcome<T>>)
    ensures
        slot.scan(outcomes).syncing == slot.syncing,
        slot.scan(outcomes).symbol == slot.symbol,
    decreases outcomes.len(),
{
    if outcomes.len() > 0 {
        lemma_scan_keeps_flag(slot, outcomes.drop_last());
    }
}

/// A scan in which no module gives a decisive answer leaves the slot as it
/// was.
pub proof fn lemma_scan_nothing_decisive<T>(slot: SlotView<T>, outcomes: Seq<ProbeOutcome<T>>)
    requires
        forall|j: int| 0 <= j < outcomes.len() ==> !(#[trigger] outcomes[j]).is_decisive(),
    ensures
        slot.scan(outcomes) == slot,
    decreases outcomes.len(),
{
    if outcomes.len() > 0 {
        lemma_scan_nothing_decisive(slot, outcomes.drop_last());
    }
}

/// The first decisive answer settles a scan: the slot ends as that answer
/// alone leaves it, whatever the modules behind it would have said.
pub proof fn lemma_scan_first_decisive<T>(
    slot: SlotView<T>,
    outcomes: Seq<ProbeOutcome<T>>,
    k: int,
)
    requires
        slot.scanning(),
        0 <= k < outcomes.len(),
        outcomes[k].is_decisive(),
        forall|j: int| 0 <= j < k ==> !(#[trigger] outcomes[j]).is_decisive(),
    ensures
        slot.scan(outcomes) == slot.observe(outcomes[k]),
{
    let before = outcomes.take(k);
    let upto = outcomes.take(k + 1);
    let behind = outcomes.skip(k + 1);
    lemma_scan_nothing_decisive(slot, before);
    assert(upto.drop_last() =~= before);
    assert(upto.last() == outcomes[k]);
    assert(upto + behind =~= outcomes);
    lemma_scan_split(slot, upto, behind);
    lemma_scan_ignored_when_not_scanning(slot.observe(outcomes[k]), behind);
}

/// `first_decisive` finds the first decisive answer below the bound: the
/// answer at the index it gives is decisive, none before it is, and it gives
/// the bound itself exactly where no answer below the bound is decisive.
pub proof fn lemma_first_decisive<T>(outcomes: Seq<ProbeOutcome<T>>, bound: int)
    requires
        0 <= bound <= outcomes.len(),
    ensures
        0 <= first_decisive(outcomes, bound) <= bound,
        first_decisive(outcomes, bound) < bound ==> outcomes[first_decisive(
            outcomes,
            bound,
        )].is_decisive(),
        forall|j: int|
            0 <= j < first_decisive(outcomes, bound) ==> !(#[trigger] outcomes[j]).is_decisive(),
    decreases bound,
{
    if bound > 0 {
        lemma_first_decisive(outcomes, bound - 1);
    }
}

/// A scan is settled by the first decisive answer of the enumeration, and
/// leaves the slot as it was where there is none.
pub proof fn lemma_scan_by_first_decisive<T>(slot: SlotView<T>, outcomes: Seq<ProbeOutcome<T>>)
    requires
        slot.scanning(),
    ensures
        slot.scan(outcomes) == if first_decisive(outcomes, outcomes.len() as int)
            < outcomes.len() {
            slot.observe(outcomes[first_decisive(outcomes, outcomes.len() as int)])
        } else {
            slot
        },
{
    let k = first_decisive(outcomes, outcomes.len() as int);
    lemma_first_decisive(outcomes, outcomes.len() as int);
    if k < outcomes.len() {
        lemma_scan_first_decisive(slot, outcomes, k);
    } else {
        lemma_scan_nothing_decisive(slot, outcomes);
    }
}

/// An answer that is not decisive may be put anywhere into the enumeration,
/// or taken out of it: the scan ends the same.
pub proof fn lemma_indecisive_answer_skipped<T>(
    slot: SlotView<T>,
    outcomes: Seq<ProbeOutcome<T>>,
    k: int,
    outcome: ProbeOutcome<T>,
)
    requires
        0 <= k <= outcomes.len(),
        !outcome.is_decisive(),
    ensures
        slot.scan(outcomes.insert(k, outcome)) == slot.scan(outcomes),
{
    let before = outcomes.take(k);
    let behind = outcomes.skip(k);
    let with = before.push(outcome);
    assert(with.drop_last() =~= before);
    assert(slot.scan(with) == slot.scan(before));
    assert(outcomes.insert(k, outcome) =~= with + behind);
    assert(before + behind =~= outcomes);
    lemma_scan_split(slot, with, behind);
    lemma_scan_split(slot, before, behind);
}

/// A module that does not export the symbol is passed over: with or without
/// it in the enumeration, wherever it stands, the synchronization ends in
/// the same slot and returns the same.
pub proof fn lemma_absent_symbol_skipped<T>(
    slot: SlotView<T>,
    outcomes: Seq<ProbeOutcome<T>>,
    k: int,
    err: libloading::Error,
    fresh: Arc<T>,
)
    requires
        0 <= k <= outcomes.len(),
        symbol_absent(lookup_failure_of(err)),
    ensures
        slot.observe(ProbeOutcome::LookupFailed(err)) == slot,
        slot.scanning() ==> slot.control(ProbeOutcome::LookupFailed(err)) == ScanControl::Continue,
        slot.sync(outcomes.insert(k, ProbeOutcome::LookupFailed(err)), fresh) == slot.sync(
            outcomes,
            fresh,
        ),
        slot.sync_verdict(outcomes.insert(k, ProbeOutcome::LookupFailed(err)))
            == slot.sync_verdict(outcomes),
{
    lemma_indecisive_answer_skipped(slot.begin(), outcomes, k, ProbeOutcome::LookupFailed(err));
}

/// From the start of its scan to the end, a module answers its own probe
/// with nothing; and that answer, met in its own enumeration, neither stops
/// the scan nor changes the slot.
pub proof fn lemma_own_probe_silent<T>(slot: SlotView<T>, outcomes: Seq<ProbeOutcome<T>>)
    ensures
        slot.begin().probe() is None,
        slot.begin().scan(outcomes).probe() is None,
        !ProbeOutcome::Answered(slot.begin().scan(outcomes).probe()).is_decisive(),
        slot.begin().scan(outcomes).observe(
            ProbeOutcome::Answered(slot.begin().scan(outcomes).probe()),
        ) == slot.begin().scan(outcomes),
{
    lemma_scan_keeps_flag(slot.begin(), outcomes);
}

/// A synchronization always ends with an instance in the slot and the slot
/// at rest under its old symbol, whether it succeeds or fails.
pub proof fn lemma_sync_fills_slot<T>(
    slot: SlotView<T>,
    outcomes: Seq<ProbeOutcome<T>>,
    fresh: Arc<T>,
)
    ensures
        slot.sync(outcomes, fresh).instance is Some,
        slot.sync(outcomes, fresh).at_rest(),
        slot.sync(outcomes, fresh).symbol == slot.symbol,
        !slot.sync(outcomes, fresh).syncing,
{
    lemma_scan_keeps_flag(slot.begin(), outcomes);
}

/// Where no module offers an instance and none fails, the synchronizing
/// module is the first: it keeps the instance it has or, having none, takes
/// the one its initializer makes.
pub proof fn lemma_first_module_initializes<T>(
    slot: SlotView<T>,
    outcomes: Seq<ProbeOutcome<T>>,
    fresh: Arc<T>,
)
    requires
        forall|j: int| 0 <= j < outcomes.len() ==> !(#[trigger] outcomes[j]).is_decisive(),
    ensures
        slot.sync_verdict(outcomes) is Ok,
        slot.begin().scan(outcomes).needs_initializer() == (slot.instance is None),
        slot.instance is None ==> slot.sync(outcomes, fresh).instance == Some(fresh),
        slot.instance is Some ==> slot.sync(outcomes, fresh).instance == slot.instance,
{
    lemma_scan_nothing_decisive(slot.begin(), outcomes);
}

/// The first instance offered wins: where the first decisive answer of the
/// enumeration is a handle, the slot ends with that very handle, the
/// initializer is not run, and the synchronization succeeds.
pub proof fn lemma_first_instance_wins<T>(
    slot: SlotView<T>,
    outcomes: Seq<ProbeOutcome<T>>,
    k: int,
    fresh: Arc<T>,
)
    requires
        0 <= k < outcomes.len(),
        outcomes[k] is Answered,
        outcomes[k]->Answered_0 is Some,
        forall|j: int| 0 <= j < k ==> !(#[trigger] outcomes[j]).is_decisive(),
    ensures
        slot.sync(outcomes, fresh).instance == outcomes[k]->Answered_0,
        !slot.begin().scan(outcomes).needs_initializer(),
        slot.sync_verdict(outcomes) is Ok,
{
    lemma_scan_first_decisive(slot.begin(), outcomes, k);
}

/// A module that synchronizes after another adopts the other's instance:
/// if `first` has synchronized, and its answer is the first decisive one in
/// the enumeration of `second`, then `second` ends with the handle that
/// `first` holds and does not run its own initializer.
pub proof fn lemma_first_writer_wins<T>(
    first: SlotView<T>,
    second: SlotView<T>,
    outcomes: Seq<ProbeOutcome<T>>,
    k: int,
    fresh: Arc<T>,
)
    requires
        first.instance is Some,
        !first.syncing,
        0 <= k < outcomes.len(),
        outcomes[k] == ProbeOutcome::Answered(first.probe()),
        forall|j: int| 0 <= j < k ==> !(#[trigger] outcomes[j]).is_decisive(),
    ensures
        second.sync(outcomes, fresh).instance == first.instance,
        !second.begin().scan(outcomes).needs_initializer(),
        second.sync_verdict(outcomes) is Ok,
{
    lemma_first_instance_wins(second, outcomes, k, fresh);
}

/// The first failure is fatal: where the first decisive answer of the
/// enumeration is a module that cannot be opened, or a lookup that fails
/// for another reason than an absent symbol, the synchronization returns
/// that failure and adopts nothing, whatever the modules behind it hold.
pub proof fn lemma_first_failure_reported<T>(
    slot: SlotView<T>,
    outcomes: Seq<ProbeOutcome<T>>,
    k: int,
    fresh: Arc<T>,
)
    requires
        0 <= k < outcomes.len(),
        outcomes[k].is_decisive(),
        !(outcomes[k] is Answered),
        forall|j: int| 0 <= j < k ==> !(#[trigger] outcomes[j]).is_decisive(),
    ensures
        slot.sync_verdict(outcomes) is Err,
        Some(slot.sync_verdict(outcomes)->Err_0) == outcomes[k].failure(),
        outcomes[k] matches ProbeOutcome::OpenFailed(err) ==> slot.sync_verdict(outcomes) == Err::<
            (),
            DiscoveryError,
        >(DiscoveryError::ModuleOpenFailure(err)),
        outcomes[k] matches ProbeOutcome::LookupFailed(err) ==> slot.sync_verdict(outcomes)
            == Err::<(), DiscoveryError>(DiscoveryError::SymbolLookupFailure(err)),
        slot.begin().scan(outcomes).instance == slot.instance,
        slot.instance is None ==> slot.sync(outcomes, fresh).instance == Some(fresh),
        slot.instance is Some ==> slot.sync(outcomes, fresh).instance == slot.instance,
{
    lemma_scan_first_decisive(slot.begin(), outcomes, k);
}

} // verus!
