use img_compressor::unit::{advance, UnitStage};

#[test]
fn successful_unit_walks_every_stage() {
    let mut s = UnitStage::Queued;
    let expected = [
        UnitStage::Retrieving,
        UnitStage::Staged,
        UnitStage::MetadataExtracted,
        UnitStage::Rendered,
        UnitStage::Encoded,
        UnitStage::PartitionKeyBuilt,
        UnitStage::Stored,
        UnitStage::Done,
    ];
    for want in expected {
        s = advance(s, true);
        assert_eq!(s, want);
    }
}

#[test]
fn failure_drops_to_failed_from_any_stage() {
    assert_eq!(advance(UnitStage::Queued, false), UnitStage::Failed);
    assert_eq!(advance(UnitStage::Rendered, false), UnitStage::Failed);
    assert_eq!(advance(UnitStage::Stored, false), UnitStage::Failed);
}

#[test]
fn terminal_stages_never_move() {
    assert_eq!(advance(UnitStage::Done, true), UnitStage::Done);
    assert_eq!(advance(UnitStage::Done, false), UnitStage::Done);
    assert_eq!(advance(UnitStage::Failed, true), UnitStage::Failed);
    assert_eq!(advance(UnitStage::Failed, false), UnitStage::Failed);
}
