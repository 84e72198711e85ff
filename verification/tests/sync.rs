use sequencer_core::sync::{SyncBlockRow, SyncDal};
use sequencer_core::types::{AccountAddress, BlockHash, Transaction};

fn row() -> SyncBlockRow {
    SyncBlockRow {
        number: 41,
        batch_number: 5,
        last_sub_block_in_batch: Some(41),
        timestamp: 1000,
        root_hash: Some(BlockHash { hi: 41, lo: 41 }),
        l1_gas_price: 31,
        l2_fair_gas_price: 41,
        bootloader_hash: BlockHash { hi: 11, lo: 12 },
        default_account_hash: BlockHash { hi: 13, lo: 14 },
        virtual_blocks: 3,
        hash: BlockHash { hi: 41, lo: 41 },
        protocol_version: 17,
        fee_account: Some(AccountAddress { hi: 1, lo: 2 }),
    }
}

#[test]
fn sync_block_publishes_the_row_verbatim() {
    let dal = SyncDal::new();
    let txs = vec![Transaction { hash: BlockHash { hi: 0, lo: 1 }, payload: vec![0xaa] }];
    let block = dal
        .sync_block(Some(row()), AccountAddress { hi: 9, lo: 9 }, Some(txs.clone()))
        .expect("the row exists");
    assert_eq!(block.number, 41);
    assert_eq!(block.batch_number, 5);
    assert!(block.last_in_batch);
    assert_eq!(block.timestamp, 1000);
    assert_eq!(block.fee_account, AccountAddress { hi: 1, lo: 2 });
    assert_eq!(block.transactions, Some(txs));
}

#[test]
fn sync_block_falls_back_to_the_operator_address() {
    let dal = SyncDal::new();
    let mut bare = row();
    bare.fee_account = None;
    let block = dal
        .sync_block(Some(bare), AccountAddress { hi: 9, lo: 9 }, None)
        .expect("the row exists");
    assert_eq!(block.fee_account, AccountAddress { hi: 9, lo: 9 });
    assert_eq!(block.transactions, None);
}

#[test]
fn sync_block_flags_only_the_last_block_of_a_batch() {
    let dal = SyncDal::new();
    let mut not_last = row();
    not_last.number = 40;
    let block = dal
        .sync_block(Some(not_last), AccountAddress { hi: 9, lo: 9 }, None)
        .expect("the row exists");
    assert!(!block.last_in_batch);
    let mut open_batch = row();
    open_batch.last_sub_block_in_batch = None;
    let block = dal
        .sync_block(Some(open_batch), AccountAddress { hi: 9, lo: 9 }, None)
        .expect("the row exists");
    assert!(!block.last_in_batch);
}

#[test]
fn sync_block_of_a_missing_row_is_none() {
    let dal = SyncDal::new();
    assert_eq!(dal.sync_block(None, AccountAddress { hi: 9, lo: 9 }, None), None);
}
