use tree_guardian::address::id;
use tree_guardian::{Ledger, NftTransferred, Pubkey};

#[test]
fn end_to_end() {
    let a = Pubkey::new_from_array([0xA; 32]);
    let b = Pubkey::new_from_array([0xB; 32]);
    let c = Pubkey::new_from_array([0xC; 32]);
    let asset = Pubkey::new_from_array([0x55; 32]);

    let mut ledger = Ledger::new(id()).unwrap();
    ledger.initialize(a).unwrap();
    assert_eq!(ledger.registry().unwrap().authority, a);
    assert_eq!(ledger.registry().unwrap().total_trees, 0);

    let minted = ledger.issue(asset, b, "Plot 7".to_string(), 1_700_000_000).unwrap();
    assert_eq!(minted.tree_id, 1);
    assert_eq!(minted.owner, b);
    assert_eq!(minted.location, "Plot 7");
    assert_eq!(minted.planting_date, 1_700_000_000);
    let record = ledger.metadata(&asset).unwrap();
    assert_eq!(record.tree_id, 1);
    assert_eq!(record.impact_score, 100);
    assert_eq!(ledger.balance(&asset, &b), 1);
    assert_eq!(ledger.registry().unwrap().total_trees, 1);

    let moved = ledger.transfer(asset, b, c, 1).unwrap();
    assert_eq!(moved, NftTransferred { from: b, to: c, tree_id: 1, amount: 1 });
    assert_eq!(ledger.balance(&asset, &b), 0);
    assert_eq!(ledger.balance(&asset, &c), 1);
    let record = ledger.metadata(&asset).unwrap();
    assert_eq!(record.tree_id, 1);
    assert_eq!(record.owner, b);
    assert_eq!(ledger.registry().unwrap().authority, a);
    assert_eq!(ledger.registry().unwrap().total_trees, 1);
}
