//! The life of one unit of work: the end-to-end conversion of exactly
//! one object, tracked as a forward-only state machine. A unit moves
//! through its stages in order, reaches `Done`, or drops to `Failed`
//! from any stage; it never moves back and is never retried.

use vstd::prelude::*;

verus! {

/// The stage one unit of work has reached.
#[derive(Clone, Copy, PartialEq, Eq, Structural, Debug)]
pub enum UnitStage {
    Queued,
    Retrieving,
    Staged,
    MetadataExtracted,
    Rendered,
    Encoded,
    PartitionKeyBuilt,
    Stored,
    Done,
    Failed,
}

/// Position of a stage in the forward order. `Done` and `Failed` are
/// the two terminal stages and rank above every working stage.
pub open spec fn stage_rank(s: UnitStage) -> int {
    match s {
        UnitStage::Queued => 0,
        UnitStage::Retrieving => 1,
        UnitStage::Staged => 2,
        UnitStage::MetadataExtracted => 3,
        UnitStage::Rendered => 4,
        UnitStage::Encoded => 5,
        UnitStage::PartitionKeyBuilt => 6,
        UnitStage::Stored => 7,
        UnitStage::Done => 8,
        UnitStage::Failed => 8,
    }
}

/// A unit in a terminal stage never moves again.
pub open spec fn is_terminal(s: UnitStage) -> bool {
    s is Done || s is Failed
}

/// The stage after a successful step.
pub open spec fn next_stage(s: UnitStage) -> UnitStage {
    match s {
        UnitStage::Queued => UnitStage::Retrieving,
        UnitStage::Retrieving => UnitStage::Staged,
        UnitStage::Staged => UnitStage::MetadataExtracted,
        UnitStage::MetadataExtracted => UnitStage::Rendered,
        UnitStage::Rendered => UnitStage::Encoded,
        UnitStage::Encoded => UnitStage::PartitionKeyBuilt,
        UnitStage::PartitionKeyBuilt => UnitStage::Stored,
        UnitStage::Stored => UnitStage::Done,
        UnitStage::Done => UnitStage::Done,
        UnitStage::Failed => UnitStage::Failed,
    }
}

/// The stage a unit reaches after one step: the next stage where the
/// step succeeded, `Failed` where it failed, and no movement at all
/// once the unit is terminal.
pub open spec fn spec_advance(s: UnitStage, ok: bool) -> UnitStage {
    if is_terminal(s) {
        s
    } else if ok {
        next_stage(s)
    } else {
        UnitStage::Failed
    }
}

/// Advances one unit of work by one step whose outcome is `ok`.
pub fn advance(s: UnitStage, ok: bool) -> (r: UnitStage)
    ensures
        r == spec_advance(s, ok),
{
    match s {
        UnitStage::Done => UnitStage::Done,
        UnitStage::Failed => UnitStage::Failed,
        _ => {
            if !ok {
                UnitStage::Failed
            } else {
                match s {
                    UnitStage::Queued => UnitStage::Retrieving,
                    UnitStage::Retrieving => UnitStage::Staged,
                    UnitStage::Staged => UnitStage::MetadataExtracted,
                    UnitStage::MetadataExtracted => UnitStage::Rendered,
                    UnitStage::Rendered => UnitStage::Encoded,
                    UnitStage::Encoded => UnitStage::PartitionKeyBuilt,
                    UnitStage::PartitionKeyBuilt => UnitStage::Stored,
                    _ => UnitStage::Done,
                }
            }
        },
    }
}

/// A unit never moves back: every step from a working stage strictly
/// raises the stage's rank, so no sequence of steps revisits a stage.
pub proof fn lemma_advance_forward(s: UnitStage, ok: bool)
    ensures
        !is_terminal(s) ==> stage_rank(spec_advance(s, ok)) > stage_rank(s),
        is_terminal(s) ==> spec_advance(s, ok) == s,
{
}

/// A failed step sends the unit to `Failed`, and `Failed` absorbs
/// every further step: one unit's failure stops that unit for good
/// and nothing else.
pub proof fn lemma_failure_is_final(s: UnitStage, ok: bool)
    ensures
        !is_terminal(s) && !ok ==> spec_advance(s, ok) is Failed,
        spec_advance(UnitStage::Failed, ok) is Failed,
{
}

} // verus!
