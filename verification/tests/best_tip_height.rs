use zebra_core::chain::best_tip_height::BestTipHeight as BestTipHeightAccess;
use zebra_core::chain::block::Height;
use zebra_core::state::best_tip_height::BestTipHeight;
use zebra_core::state::best_tip_height_receiver::BestTipHeightReceiver;

/// The heights that readers of the published height see, in the order of publishing.
fn published(best_tip_height: &mut BestTipHeight, updates: Vec<Update>) -> Vec<u32> {
    let mut seen = vec![];
    for update in updates {
        let publish = match update {
            Update::Finalized(height) => best_tip_height.set_finalized_height(Height(height)),
            Update::NonFinalized(height) => best_tip_height.set_best_non_finalized_height(height.map(Height)),
        };
        if let Some(height) = publish {
            seen.push(height.0);
            assert_eq!(best_tip_height.best_tip_height(), height);
        }
    }
    seen
}

enum Update {
    Finalized(u32),
    NonFinalized(Option<u32>),
}

#[test]
fn best_tip_coalescing() {
    let (mut best_tip_height, initial) = BestTipHeight::new();
    assert_eq!(initial, Height(0));
    let seen = published(
        &mut best_tip_height,
        vec![
            Update::Finalized(10),
            Update::NonFinalized(Some(15)),
            Update::NonFinalized(Some(12)),
            Update::NonFinalized(None),
        ],
    );
    assert_eq!(seen, vec![10, 15, 12, 10]);
}

#[test]
fn nothing_is_published_twice_in_a_row() {
    let (mut best_tip_height, _) = BestTipHeight::new();
    let seen = published(
        &mut best_tip_height,
        vec![
            Update::Finalized(0),
            Update::NonFinalized(None),
            Update::NonFinalized(Some(7)),
            Update::NonFinalized(Some(7)),
            Update::Finalized(3),
            Update::Finalized(7),
            Update::NonFinalized(None),
            Update::Finalized(7),
            Update::NonFinalized(Some(0)),
        ],
    );
    assert_eq!(seen, vec![7, 0]);
    assert_eq!(best_tip_height.best_tip_height(), Height(0));
}

#[test]
fn non_finalized_tip_changes_best_tip() {
    for height in [1, 2, 1_000_000, u32::MAX] {
        let (mut best_tip_height, _) = BestTipHeight::new();
        assert_eq!(best_tip_height.set_best_non_finalized_height(Some(Height(height))), Some(Height(height)));
        assert_eq!(best_tip_height.best_tip_height(), Height(height));
    }
}

#[test]
fn finalized_tip_changes_best_tip() {
    for height in [1, 2, 1_000_000, u32::MAX] {
        let (mut best_tip_height, _) = BestTipHeight::new();
        assert_eq!(best_tip_height.set_finalized_height(Height(height)), Some(Height(height)));
        assert_eq!(best_tip_height.best_tip_height(), Height(height));
    }
}

#[test]
fn the_non_finalized_tip_is_the_best_tip_where_there_is_one() {
    for finalized in [0, 5, 100] {
        for non_finalized in [None, Some(0), Some(5), Some(6), Some(99), Some(101)] {
            let (mut best_tip_height, _) = BestTipHeight::new();
            best_tip_height.set_best_non_finalized_height(non_finalized.map(Height));
            best_tip_height.set_finalized_height(Height(finalized));
            assert_eq!(best_tip_height.best_tip_height(), Height(non_finalized.unwrap_or(finalized)));

            let (mut best_tip_height, _) = BestTipHeight::new();
            best_tip_height.set_finalized_height(Height(finalized));
            best_tip_height.set_best_non_finalized_height(non_finalized.map(Height));
            assert_eq!(best_tip_height.best_tip_height(), Height(non_finalized.unwrap_or(finalized)));
        }
    }
}

#[test]
fn receiver_reads_the_best_tip() {
    let mut receiver = BestTipHeightReceiver::new();
    assert_eq!(receiver.best_tip_height(), Height(1));
    receiver.finalized = Height(40);
    assert_eq!(receiver.best_tip_height(), Height(40));
    receiver.non_finalized = Some(Height(45));
    assert_eq!(receiver.best_tip_height(), Height(45));
    receiver.non_finalized = Some(Height(39));
    assert_eq!(receiver.best_tip_height(), Height(39));
    receiver.non_finalized = None;
    assert_eq!(receiver.best_tip_height(), Height(40));
}
